//! Names of stored artifacts. The key of an artifact is a function of the
//! request alone, so that generating a document again overwrites the same
//! object.

use vstd::prelude::*;
use crate::models::document::DocumentRequest;
use crate::text::{decimal, push_chars, push_decimal_i64, push_text};

verus! {

/// The hexadecimal digit that stands for `d`, for `0 <= d < 16`, in lower
/// case.
pub open spec fn hex_char(d: int) -> char {
    if d == 0 {
        '0'
    } else if d == 1 {
        '1'
    } else if d == 2 {
        '2'
    } else if d == 3 {
        '3'
    } else if d == 4 {
        '4'
    } else if d == 5 {
        '5'
    } else if d == 6 {
        '6'
    } else if d == 7 {
        '7'
    } else if d == 8 {
        '8'
    } else if d == 9 {
        '9'
    } else if d == 10 {
        'a'
    } else if d == 11 {
        'b'
    } else if d == 12 {
        'c'
    } else if d == 13 {
        'd'
    } else if d == 14 {
        'e'
    } else {
        'f'
    }
}

/// The last `width` hexadecimal digits of `n`, most significant first.
pub open spec fn hex_fixed(n: nat, width: nat) -> Seq<char>
    decreases width,
{
    if width == 0 {
        Seq::empty()
    } else {
        hex_fixed(n / 16, (width - 1) as nat).push(hex_char((n % 16) as int))
    }
}

/// The text of a UUID: its 32 hexadecimal digits in lower case, in groups of
/// 8, 4, 4, 4 and 12 with hyphens between them.
pub open spec fn uuid_text(id: u128) -> Seq<char> {
    let digits = hex_fixed(id as nat, 32);
    digits.subrange(0, 8) + seq!['-'] + digits.subrange(8, 12) + seq!['-'] + digits.subrange(
        12,
        16,
    ) + seq!['-'] + digits.subrange(16, 20) + seq!['-'] + digits.subrange(20, 32)
}

proof fn lemma_hex_fixed_len(n: nat, width: nat)
    ensures
        hex_fixed(n, width).len() == width,
    decreases width,
{
    if width > 0 {
        lemma_hex_fixed_len(n / 16, (width - 1) as nat);
    }
}

pub(crate) fn hex_digit_of(d: u128) -> (c: char)
    requires
        d < 16,
    ensures
        c == hex_char(d as int),
{
    if d == 0 {
        '0'
    } else if d == 1 {
        '1'
    } else if d == 2 {
        '2'
    } else if d == 3 {
        '3'
    } else if d == 4 {
        '4'
    } else if d == 5 {
        '5'
    } else if d == 6 {
        '6'
    } else if d == 7 {
        '7'
    } else if d == 8 {
        '8'
    } else if d == 9 {
        '9'
    } else if d == 10 {
        'a'
    } else if d == 11 {
        'b'
    } else if d == 12 {
        'c'
    } else if d == 13 {
        'd'
    } else if d == 14 {
        'e'
    } else {
        'f'
    }
}

fn push_hex(out: &mut Vec<char>, n: u128, width: u32)
    ensures
        final(out)@ == old(out)@ + hex_fixed(n as nat, width as nat),
    decreases width,
{
    if width > 0 {
        push_hex(out, n / 16, width - 1);
        out.push(hex_digit_of(n % 16));
    }
    assert(out@ =~= old(out)@ + hex_fixed(n as nat, width as nat));
}

/// The text of the UUID with the number `id`.
pub fn format_uuid(id: u128) -> (text: String)
    ensures
        text@ == uuid_text(id),
{
    let mut digits: Vec<char> = Vec::new();
    push_hex(&mut digits, id, 32);
    proof {
        lemma_hex_fixed_len(id as nat, 32);
        assert(digits@ =~= hex_fixed(id as nat, 32));
    }
    let mut out = String::new();
    push_chars(&mut out, &digits, 0, 8);
    out.push('-');
    push_chars(&mut out, &digits, 8, 12);
    out.push('-');
    push_chars(&mut out, &digits, 12, 16);
    out.push('-');
    push_chars(&mut out, &digits, 16, 20);
    out.push('-');
    push_chars(&mut out, &digits, 20, 32);
    assert(out@ =~= uuid_text(id));
    out
}

/// The owner under which the artifacts of a request are stored: its
/// organization where it names one, else `tenant_` and the tenant's number.
pub open spec fn owner_text(request: DocumentRequest) -> Seq<char> {
    match request.metadata.organization_id {
        Some(organization) => organization@,
        None => "tenant_"@ + decimal(request.metadata.tenant_id as int),
    }
}

/// The owner under which the artifacts of `request` are stored.
pub fn owner_of(request: &DocumentRequest) -> (owner: String)
    ensures
        owner@ == owner_text(*request),
{
    match &request.metadata.organization_id {
        Some(organization) => organization.clone(),
        None => {
            let mut out = String::new();
            push_text(&mut out, "tenant_");
            push_decimal_i64(&mut out, request.metadata.tenant_id);
            assert(out@ =~= owner_text(*request));
            out
        },
    }
}

/// The key of an artifact: category, owner and request identifier separated
/// by slashes, then a dot and the file extension.
pub open spec fn artifact_key_text(
    category: Seq<char>,
    owner: Seq<char>,
    id: u128,
    extension: Seq<char>,
) -> Seq<char> {
    category + "/"@ + owner + "/"@ + uuid_text(id) + "."@ + extension
}

/// The storage key of the artifact generated for request `id`.
pub fn artifact_key(category: &str, owner: &str, id: u128, extension: &str) -> (key: String)
    ensures
        key@ == artifact_key_text(category@, owner@, id, extension@),
{
    let mut out = String::new();
    push_text(&mut out, category);
    push_text(&mut out, "/");
    push_text(&mut out, owner);
    push_text(&mut out, "/");
    let id_text = format_uuid(id);
    push_text(&mut out, id_text.as_str());
    push_text(&mut out, ".");
    push_text(&mut out, extension);
    assert(out@ =~= artifact_key_text(category@, owner@, id, extension@));
    out
}

/// The address under which a stored object is fetched: below the content
/// delivery address where one is configured, else below the bucket's own.
pub open spec fn object_url_text(cdn: Option<Seq<char>>, bucket: Seq<char>, key: Seq<char>) -> Seq<
    char,
> {
    match cdn {
        Some(base) => base + "/"@ + key,
        None => "https://"@ + bucket + ".s3.amazonaws.com/"@ + key,
    }
}

/// The address under which the object `key` of `bucket` is fetched.
pub fn object_url(cdn_url: &Option<String>, bucket: &str, key: &str) -> (url: String)
    ensures
        url@ == object_url_text(
            match *cdn_url {
                Some(base) => Some(base@),
                None => None,
            },
            bucket@,
            key@,
        ),
{
    let mut out = String::new();
    match cdn_url {
        Some(base) => {
            push_text(&mut out, base.as_str());
            push_text(&mut out, "/");
            push_text(&mut out, key);
            assert(out@ =~= base@ + "/"@ + key@);
        },
        None => {
            push_text(&mut out, "https://");
            push_text(&mut out, bucket);
            push_text(&mut out, ".s3.amazonaws.com/");
            push_text(&mut out, key);
            assert(out@ =~= "https://"@ + bucket@ + ".s3.amazonaws.com/"@ + key@);
        },
    }
    out
}

} // verus!
