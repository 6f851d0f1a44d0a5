//! What the apps do: the actions offered on clips, how local and hosted clips are brought
//! together and found, the keyring entry of the session and the signed-in user.
pub mod clips;
pub mod os_keyring;
pub mod users;
