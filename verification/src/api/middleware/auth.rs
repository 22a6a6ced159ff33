//! Bearer tokens. A token names the tenant and the user that a request is
//! counted and stored for.

use vstd::prelude::*;
use crate::text::{
    chars_of,
    has_prefix,
    parse_i64,
    parsed_i64,
    segment,
    segment_of,
    starts_with,
};

verus! {

/// The sender of an authenticated request.
#[derive(Debug, Clone)]
pub struct UserInfo {
    pub tenant_id: i64,
    pub user_id: i64,
    pub organization_id: Option<String>,
}

/// The number that follows `label` in a part of a token; 1 where the part is
/// missing, does not begin with the label, or holds no number after it.
pub open spec fn labelled_number(part: Option<Seq<char>>, label: Seq<char>) -> i64 {
    match part {
        Some(text) => if has_prefix(text, label) {
            match parsed_i64(text.subrange(label.len() as int, text.len() as int)) {
                Some(number) => number,
                None => 1,
            }
        } else {
            1
        },
        None => 1,
    }
}

/// The tenant and user that a token names, or `None` for a token that is
/// refused. A token is accepted if it begins with `valid_`; its parts are
/// separated by underscores, the second names the tenant as `tenant` and a
/// number, the third the user as `user` and a number.
pub open spec fn token_identity(token: Seq<char>) -> Option<(i64, i64)> {
    if has_prefix(token, "valid_"@) {
        Some(
            (
                labelled_number(segment(token, '_', 1), "tenant"@),
                labelled_number(segment(token, '_', 2), "user"@),
            ),
        )
    } else {
        None
    }
}

fn number_after(part: &Option<Vec<char>>, label: &str) -> (number: i64)
    ensures
        number == labelled_number(
            match *part {
                Some(text) => Some(text@),
                None => None,
            },
            label@,
        ),
{
    match part {
        Some(text) => {
            let prefix = chars_of(label);
            if starts_with(text, &prefix) {
                let mut rest: Vec<char> = Vec::new();
                let mut i: usize = prefix.len();
                while i < text.len()
                    invariant
                        prefix.len() <= i <= text.len(),
                        rest@ == text@.subrange(prefix.len() as int, i as int),
                    decreases text.len() - i,
                {
                    rest.push(text[i]);
                    i = i + 1;
                    assert(rest@ =~= text@.subrange(prefix.len() as int, i as int));
                }
                match parse_i64(&rest) {
                    Some(number) => number,
                    None => 1,
                }
            } else {
                1
            }
        },
        None => 1,
    }
}

/// Checks a bearer token and reads the sender from it.
pub fn validate_token(token: &str) -> (sender: Option<UserInfo>)
    ensures
        match token_identity(token@) {
            Some((tenant_id, user_id)) => sender matches Some(info) && info.tenant_id == tenant_id
                && info.user_id == user_id && info.organization_id is None,
            None => sender is None,
        },
{
    let chars = chars_of(token);
    let accepted = chars_of("valid_");
    if !starts_with(&chars, &accepted) {
        return None;
    }
    let tenant_part = segment_of(&chars, '_', 1);
    let user_part = segment_of(&chars, '_', 2);
    Some(
        UserInfo {
            tenant_id: number_after(&tenant_part, "tenant"),
            user_id: number_after(&user_part, "user"),
            organization_id: None,
        },
    )
}

/// The tenant and user of an authenticated request.
pub fn extract_tenant_user(sender: &Option<UserInfo>) -> (identity: Option<(i64, i64)>)
    ensures
        identity == match *sender {
            Some(info) => Some((info.tenant_id, info.user_id)),
            None => None,
        },
{
    match sender {
        Some(info) => Some((info.tenant_id, info.user_id)),
        None => None,
    }
}

} // verus!
