//! Giving an employee a user account: the checks, the user's name and the
//! temporary password.
use vstd::prelude::*;

use crate::error::{AppError, ErrorKind};

verus! {

/// The employee-user link service: the decisions of provisioning a user
/// for an employee.
pub struct EmployeeUserLinkService;

/// A user created for an employee, with the temporary password to hand
/// over.
pub struct ProvisionedUser {
    pub user_id: String,
    pub temp_password: String,
}

/// The characters of temporary passwords: letters and digits without the
/// easily confused `I`, `O`, `i`, `l`, `o`, `0` and `1`, and `!@#$`.
pub const PASSWORD_CHARSET: &'static str = "ABCDEFGHJKLMNPQRSTUVWXYZabcdefghjkmnpqrstuvwxyz23456789!@#$";

/// The number of characters of a temporary password.
pub const PASSWORD_LEN: usize = 16;

/// `rand::random_range(0..n)`: an index drawn uniformly below `n`.
#[verifier::external_body]
fn random_index(n: usize) -> (r: usize)
    requires
        n > 0,
    ensures
        r < n,
{
    rand::random_range(0..n)
}

impl EmployeeUserLinkService {
    /// An employee needs an email address to get a user account.
    pub fn provision_email(email: Option<&str>) -> (r: Result<String, AppError>)
        ensures
            match email {
                Some(e) => r matches Ok(s) && s@ == e@,
                None => r matches Err(e) && e.kind_and_message() == (
                    ErrorKind::BadRequest,
                    "Employee must have an email to create a user account"@,
                ),
            },
    {
        match email {
            Some(e) => Ok(e.to_owned()),
            None => Err(
                AppError::BadRequest(
                    "Employee must have an email to create a user account".to_owned(),
                ),
            ),
        }
    }

    /// The full name of the new user: first and last name.
    pub fn user_full_name(first_name: &str, last_name: &str) -> (r: String)
        ensures
            r@ == first_name@ + " "@ + last_name@,
    {
        let mut out = first_name.to_owned();
        out.append(" ");
        out.append(last_name);
        out
    }

    /// The password made of the charset's characters at the given indices.
    pub fn password_from_indices(indices: &Vec<usize>) -> (r: String)
        requires
            forall|i: int| 0 <= i < indices.len() ==> (#[trigger] indices[i]) < 59,
        ensures
            r@.len() == indices.len(),
            forall|i: int| 0 <= i < indices.len() ==> #[trigger] r@[i] == PASSWORD_CHARSET@[indices[i] as int],
    {
        proof {
            reveal_strlit("ABCDEFGHJKLMNPQRSTUVWXYZabcdefghjkmnpqrstuvwxyz23456789!@#$");
        }
        let charset = crate::text::chars_of(PASSWORD_CHARSET);
        let mut out: Vec<char> = Vec::new();
        let mut i: usize = 0;
        while i < indices.len()
            invariant
                i <= indices.len(),
                charset@ == PASSWORD_CHARSET@,
                charset@.len() == 59,
                forall|j: int| 0 <= j < indices.len() ==> (#[trigger] indices[j]) < 59,
                out@.len() == i,
                forall|j: int| 0 <= j < i ==> #[trigger] out@[j] == PASSWORD_CHARSET@[indices[j] as int],
            decreases indices.len() - i,
        {
            out.push(charset[indices[i]]);
            i = i + 1;
        }
        crate::text::string_of(&out)
    }

    /// A temporary password: sixteen characters drawn at random from the
    /// charset.
    pub fn generate_temp_password() -> (r: String)
        ensures
            r@.len() == PASSWORD_LEN,
            forall|i: int| 0 <= i < r@.len() ==> PASSWORD_CHARSET@.contains(#[trigger] r@[i]),
    {
        proof {
            reveal_strlit("ABCDEFGHJKLMNPQRSTUVWXYZabcdefghjkmnpqrstuvwxyz23456789!@#$");
        }
        let mut indices: Vec<usize> = Vec::new();
        let mut i: usize = 0;
        while i < PASSWORD_LEN
            invariant
                i <= PASSWORD_LEN,
                indices.len() == i,
                forall|j: int| 0 <= j < i ==> (#[trigger] indices[j]) < 59,
            decreases PASSWORD_LEN - i,
        {
            indices.push(random_index(59));
            i = i + 1;
        }
        let r = Self::password_from_indices(&indices);
        assert forall|i: int| 0 <= i < r@.len() implies PASSWORD_CHARSET@.contains(#[trigger] r@[i]) by {
            assert(r@[i] == PASSWORD_CHARSET@[indices[i] as int]);
        }
        r
    }
}

} // verus!
