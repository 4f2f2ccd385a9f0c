use vstd::prelude::*;

use crate::account::UserRecord;
use crate::api_response::ApiResponse;
use crate::numbers::{parse_i32, spec_parse_i32};

verus! {

/// What a caller submits to subscribe to, or leave, another user's feed.
#[derive(Debug)]
pub struct SubscriptionRequest {
    pub user_id: i32,
}

/// One row of a subscription listing: the related user as callers see it.
#[derive(Debug)]
pub struct SubscriptionResponse {
    pub id: i32,
    pub name: String,
    pub email: String,
}

/// The checks that guard a new subscription: no subscribing to oneself,
/// and no second subscription to the same user. Whether the pair is
/// already subscribed is the store's answer, handed in by the caller.
pub fn subscribe_gate(subscriber_id: i32, subscribed_to_id: i32, already_subscribed: bool) -> (r:
    Result<(), ApiResponse>)
    ensures
        subscriber_id == subscribed_to_id ==> (r matches Err(e) && e.status_code == 400
            && e.body@ == "Cannot subscribe to yourself."@),
        subscriber_id != subscribed_to_id && already_subscribed ==> (r matches Err(e)
            && e.status_code == 400 && e.body@ == "Already subscribed to this user."@),
        r is Ok <==> (subscriber_id != subscribed_to_id && !already_subscribed),
{
    if subscriber_id == subscribed_to_id {
        return Err(ApiResponse::new(400, "Cannot subscribe to yourself.".to_owned()));
    }
    if already_subscribed {
        return Err(ApiResponse::new(400, "Already subscribed to this user.".to_owned()));
    }
    Ok(())
}

/// The answer to an unsubscribe request, judged by how many subscription
/// rows the deletion removed: none means there was nothing to leave.
pub fn unsubscribe_gate(rows_affected: u64) -> (r: Result<ApiResponse, ApiResponse>)
    ensures
        rows_affected == 0 ==> (r matches Err(e) && e.status_code == 404
            && e.body@ == "Subscription not found"@),
        rows_affected != 0 ==> (r matches Ok(a) && a.status_code == 200
            && a.body@ == "Unsubscribed successfully"@),
{
    if rows_affected == 0 {
        return Err(ApiResponse::new(404, "Subscription not found".to_owned()));
    }
    Ok(ApiResponse::new(200, "Unsubscribed successfully".to_owned()))
}

/// The subscriber identifier as the unsubscribe-from-email route reads it
/// out of its query string.
pub fn subscriber_id_from_query(value: Option<&str>) -> (r: Option<i32>)
    ensures
        match value {
            Some(v) => r == spec_parse_i32(v@),
            None => r is None,
        },
{
    match value {
        Some(v) => parse_i32(v),
        None => None,
    }
}

/// The user rows present in a joined listing, kept in their order.
pub open spec fn present_users(rows: Seq<Option<UserRecord>>) -> Seq<UserRecord>
    decreases rows.len(),
{
    if rows.len() == 0 {
        Seq::empty()
    } else {
        let rest = present_users(rows.drop_last());
        match rows.last() {
            Some(u) => rest.push(u),
            None => rest,
        }
    }
}

/// Turn the joined rows of a subscription listing into its response rows:
/// every user that the join found, in order, as (id, name, email); rows
/// whose join found no user are left out.
#[verifier::loop_isolation(false)]
pub fn collect_subscription_responses(rows: &Vec<Option<UserRecord>>) -> (r: Vec<
    SubscriptionResponse,
>)
    ensures
        r@.len() == present_users(rows@).len(),
        forall|k: int|
            0 <= k < r@.len() ==> {
                &&& (#[trigger] r@[k]).id == present_users(rows@)[k].id
                &&& r@[k].name@ == present_users(rows@)[k].name@
                &&& r@[k].email@ == present_users(rows@)[k].email@
            },
{
    let n = rows.len();
    let mut out: Vec<SubscriptionResponse> = Vec::new();
    let mut i: usize = 0;
    while i < n
        invariant
            i <= n,
            out@.len() == present_users(rows@.subrange(0, i as int)).len(),
            forall|k: int|
                0 <= k < out@.len() ==> {
                    &&& (#[trigger] out@[k]).id == present_users(rows@.subrange(0, i as int))[k].id
                    &&& out@[k].name@ == present_users(rows@.subrange(0, i as int))[k].name@
                    &&& out@[k].email@ == present_users(rows@.subrange(0, i as int))[k].email@
                },
        decreases n - i,
    {
        let ghost pre = rows@.subrange(0, i as int);
        let ghost pre2 = rows@.subrange(0, i + 1 as int);
        proof {
            assert(pre2.drop_last() =~= pre);
            assert(pre2.last() == rows@[i as int]);
        }
        match &rows[i] {
            Some(u) => {
                out.push(SubscriptionResponse {
                    id: u.id,
                    name: u.name.clone(),
                    email: u.email.clone(),
                });
            },
            None => {},
        }
        i = i + 1;
    }
    proof {
        assert(rows@.subrange(0, n as int) =~= rows@);
    }
    out
}

} // verus!
