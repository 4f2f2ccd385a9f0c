use vstd::prelude::*;

use crate::account::UserRecord;
use crate::api_response::ApiResponse;

verus! {

/// A user's public row, as the user listings answer it.
#[derive(Debug)]
pub struct UserModel {
    pub id: i32,
    pub name: String,
    pub email: String,
}

/// The outcome of looking one user up by the authenticated identifier:
/// their public row, or the not-found answer. The row, if any, is the
/// store's answer, handed in by the caller.
pub fn user_gate(found: Option<&UserRecord>) -> (r: Result<UserModel, ApiResponse>)
    ensures
        match found {
            Some(u) => (r matches Ok(m) && m.id == u.id && m.name@ == u.name@
                && m.email@ == u.email@),
            None => r matches Err(e) && e.status_code == 404 && e.body@ == "User not found"@,
        },
{
    match found {
        Some(u) => Ok(UserModel { id: u.id, name: u.name.clone(), email: u.email.clone() }),
        None => Err(ApiResponse::new(404, "User not found".to_owned())),
    }
}

/// The outcome of listing every user: each stored row as its public row,
/// in order, or the no-users answer when the table is empty.
#[verifier::loop_isolation(false)]
pub fn get_all_users_gate(users: &Vec<UserRecord>) -> (r: Result<Vec<UserModel>, ApiResponse>)
    ensures
        users@.len() == 0 ==> (r matches Err(e) && e.status_code == 404
            && e.body@ == "No users found"@),
        users@.len() > 0 ==> (r matches Ok(list) && list@.len() == users@.len() && forall|k: int|
            0 <= k < users@.len() ==> {
                &&& (#[trigger] list@[k]).id == users@[k].id
                &&& list@[k].name@ == users@[k].name@
                &&& list@[k].email@ == users@[k].email@
            }),
{
    if users.len() == 0 {
        return Err(ApiResponse::new(404, "No users found".to_owned()));
    }
    let n = users.len();
    let mut list: Vec<UserModel> = Vec::new();
    let mut i: usize = 0;
    while i < n
        invariant
            i <= n,
            list@.len() == i,
            forall|k: int|
                0 <= k < i ==> {
                    &&& (#[trigger] list@[k]).id == users@[k].id
                    &&& list@[k].name@ == users@[k].name@
                    &&& list@[k].email@ == users@[k].email@
                },
        decreases n - i,
    {
        let u = &users[i];
        list.push(UserModel { id: u.id, name: u.name.clone(), email: u.email.clone() });
        i = i + 1;
    }
    Ok(list)
}

} // verus!
