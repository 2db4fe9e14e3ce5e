use vstd::prelude::*;

use crate::text::str_equals;

verus! {

/// The console accepts the operator `root` with password `apple`.
pub open spec fn accepted(user: Seq<char>, password: Seq<char>) -> bool {
    user == "root"@ && password == "apple"@
}

/// Whether `user` may log in to the console with `password`.
pub fn credentials_accepted(user: &str, password: &str) -> (b: bool)
    ensures
        b == accepted(user@, password@),
{
    str_equals(user, "root") && str_equals(password, "apple")
}

} // verus!
