//! A small user-management service: credential hashing, input validation,
//! a user repository that keeps usernames unique, and the request handlers
//! that tie them together.

pub mod credentials;
pub mod handlers;
pub mod store;
pub mod user;
pub mod validate;

pub use credentials::{hash_password, verify_password, CredentialError, DEFAULT_COST};
pub use handlers::{
    add_user, delete_user, edit_patch, edit_user, get_user, new_user_record, reply_to_delete,
    reply_to_insert, reply_to_lookup, reply_to_sign_in, reply_to_update, sign_in_user, sign_out,
    Reply,
};
pub use store::{StoreError, UserPatch, UserStore};
pub use user::User;
pub use validate::{is_valid_email, passwords_match};
