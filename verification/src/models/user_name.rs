use crate::models::instance_name::{is_valid_name, valid_name};
use crate::text::chars_of;
use vstd::prelude::*;

verus! {

/// The reason given for an invalid user name.
pub open spec fn user_name_rejection() -> Seq<char> {
    "User name must only contain letters, numbers, underlines and dashes"@
}

/// The name of the user account in a VM instance.
#[derive(Debug, PartialEq, Eq)]
pub struct UserName {
    name: String,
}

impl View for UserName {
    type V = Seq<char>;

    closed spec fn view(&self) -> Seq<char> {
        self.name@
    }
}

impl UserName {
    /// Reads a user name; it must be a non-empty run of name characters.
    pub fn from_str(text: &str) -> (r: Result<UserName, String>)
        ensures
            r is Ok <==> is_valid_name(text@),
            r matches Ok(n) ==> n@ == text@,
            r matches Err(e) ==> e@ == user_name_rejection(),
    {
        let v = chars_of(text);
        if valid_name(v.as_slice()) {
            Ok(UserName { name: text.to_owned() })
        } else {
            Err("User name must only contain letters, numbers, underlines and dashes".to_owned())
        }
    }

    /// The name as written.
    pub fn as_str(&self) -> (r: &str)
        ensures
            r@ == self@,
    {
        self.name.as_str()
    }
}

impl Clone for UserName {
    fn clone(&self) -> (r: Self)
        ensures
            r@ == self@,
    {
        UserName { name: crate::text::copy_str(self.name.as_str()) }
    }
}

} // verus!
