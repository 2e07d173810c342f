//! Operator tooling helpers: candid blob escaping for asset evidence, the
//! asset path mapping, and the permission-change request builder of the
//! companion command-line tool.

use vstd::prelude::*;
use vstd::string::StrSliceExecFns;
use vstd::string::StringExecFns;

use crate::upgrade::CanisterId;

verus! {

/// A hex string escaped as in a candid blob: a backslash before every
/// chunk of two characters (one before the last character when the length
/// is odd).
pub open spec fn spec_escape_hex(s: Seq<char>) -> Seq<char>
    decreases s.len(),
{
    if s.len() == 0 {
        Seq::empty()
    } else {
        let n: int = if s.len() >= 2 {
            2
        } else {
            1
        };
        seq!['\\'] + s.take(n) + spec_escape_hex(s.skip(n))
    }
}

/// Converts a hex string into one escaped as in a candid blob.
pub fn escape_hex_string(s: &str) -> (ans: String)
    ensures
        ans@ == spec_escape_hex(s@),
{
    let mut ans = String::new();
    let len = s.unicode_len();
    proof {
        assert(s@.skip(0) =~= s@);
    }
    let mut i: usize = 0;
    while i < len
        invariant
            0 <= i <= s@.len(),
            len == s@.len(),
            spec_escape_hex(s@) == ans@ + spec_escape_hex(s@.skip(i as int)),
        decreases s@.len() - i,
    {
        let n: usize = if len - i >= 2 {
            2
        } else {
            1
        };
        let chunk = s.substring_char(i, i + n);
        let ghost prev = ans@;
        ans.append("\\");
        ans.append(chunk);
        proof {
            reveal_strlit("\\");
            assert("\\"@ =~= seq!['\\']);
            let rest = s@.skip(i as int);
            assert(rest.take(n as int) =~= chunk@);
            assert(rest.skip(n as int) =~= s@.skip(i + n));
            assert(spec_escape_hex(rest) == seq!['\\'] + chunk@ + spec_escape_hex(
                s@.skip(i + n),
            ));
            assert(ans@ == prev + seq!['\\'] + chunk@);
            assert(prev + (seq!['\\'] + chunk@ + spec_escape_hex(s@.skip(i + n))) =~= (prev
                + seq!['\\'] + chunk@) + spec_escape_hex(s@.skip(i + n)));
        }
        i = i + n;
    }
    proof {
        assert(s@.skip(s@.len() as int) =~= Seq::<char>::empty());
        assert(ans@ + Seq::<char>::empty() =~= ans@);
    }
    ans
}

/// The lower-case hex digit of a value below sixteen.
pub open spec fn spec_hex_digit(d: u8) -> char {
    if d == 0 {
        '0'
    } else if d == 1 {
        '1'
    } else if d == 2 {
        '2'
    } else if d == 3 {
        '3'
    } else if d == 4 {
        '4'
    } else if d == 5 {
        '5'
    } else if d == 6 {
        '6'
    } else if d == 7 {
        '7'
    } else if d == 8 {
        '8'
    } else if d == 9 {
        '9'
    } else if d == 10 {
        'a'
    } else if d == 11 {
        'b'
    } else if d == 12 {
        'c'
    } else if d == 13 {
        'd'
    } else if d == 14 {
        'e'
    } else {
        'f'
    }
}

fn hex_digit_str(d: u8) -> (r: &'static str)
    requires
        d < 16,
    ensures
        r@ =~= seq![spec_hex_digit(d)],
{
    proof {
        reveal_strlit("0");
        reveal_strlit("1");
        reveal_strlit("2");
        reveal_strlit("3");
        reveal_strlit("4");
        reveal_strlit("5");
        reveal_strlit("6");
        reveal_strlit("7");
        reveal_strlit("8");
        reveal_strlit("9");
        reveal_strlit("a");
        reveal_strlit("b");
        reveal_strlit("c");
        reveal_strlit("d");
        reveal_strlit("e");
        reveal_strlit("f");
    }
    match d {
        0 => "0",
        1 => "1",
        2 => "2",
        3 => "3",
        4 => "4",
        5 => "5",
        6 => "6",
        7 => "7",
        8 => "8",
        9 => "9",
        10 => "a",
        11 => "b",
        12 => "c",
        13 => "d",
        14 => "e",
        _ => "f",
    }
}

/// A byte array escaped as a candid blob: a backslash and two lower-case
/// hex digits for every byte.
pub open spec fn spec_blob_from_bytes(bytes: Seq<u8>) -> Seq<char>
    decreases bytes.len(),
{
    if bytes.len() == 0 {
        Seq::empty()
    } else {
        seq![
            '\\',
            spec_hex_digit(bytes.first() >> 4u8),
            spec_hex_digit(bytes.first() & 0xfu8),
        ] + spec_blob_from_bytes(bytes.drop_first())
    }
}

/// Converts a byte array into one escaped as a candid blob.
pub fn blob_from_bytes(bytes: &[u8]) -> (ans: String)
    ensures
        ans@ == spec_blob_from_bytes(bytes@),
{
    let mut ans = String::new();
    proof {
        assert(bytes@.skip(0) =~= bytes@);
    }
    let mut k: usize = 0;
    while k < bytes.len()
        invariant
            0 <= k <= bytes@.len(),
            spec_blob_from_bytes(bytes@) == ans@ + spec_blob_from_bytes(bytes@.skip(k as int)),
        decreases bytes@.len() - k,
    {
        let byte = bytes[k];
        proof {
            assert(byte >> 4u8 < 16 && (byte & 0xfu8) < 16) by (bit_vector);
        }
        let ghost prev = ans@;
        ans.append("\\");
        ans.append(hex_digit_str(byte >> 4));
        ans.append(hex_digit_str(byte & 0xf));
        proof {
            reveal_strlit("\\");
            assert("\\"@ =~= seq!['\\']);
            let rest = bytes@.skip(k as int);
            assert(rest.first() == byte);
            assert(rest.drop_first() =~= bytes@.skip(k + 1));
            assert(ans@ == prev + seq!['\\'] + seq![spec_hex_digit(byte >> 4u8)] + seq![
                spec_hex_digit(byte & 0xfu8),
            ]);
            assert(prev + (seq![
                '\\',
                spec_hex_digit(byte >> 4u8),
                spec_hex_digit(byte & 0xfu8),
            ] + spec_blob_from_bytes(bytes@.skip(k + 1))) =~= ans@ + spec_blob_from_bytes(
                bytes@.skip(k + 1),
            ));
        }
        k = k + 1;
    }
    proof {
        assert(bytes@.skip(bytes@.len() as int) =~= Seq::<u8>::empty());
        assert(ans@ + Seq::<char>::empty() =~= ans@);
    }
    ans
}

/// The web path an uploaded asset is served under: the relative file path
/// behind a leading slash.
pub fn asset_http_path(relative_path: &str) -> (r: String)
    ensures
        r@ == seq!['/'] + relative_path@,
{
    proof {
        reveal_strlit("/");
        assert("/"@ =~= seq!['/']);
    }
    let mut r = String::from_str("/");
    r.append(relative_path);
    r
}

/// Target of a permission-change request: one unit, or any unit.
#[derive(Clone, Copy, Debug, PartialEq, Eq, Structural)]
pub enum ChangeExternalCanisterResourceTarget {
    Any,
    Canister(CanisterId),
}

/// Payload of a permission-change request.
#[derive(Clone, Copy, Debug, PartialEq, Eq, Structural)]
pub struct EditPermissionOperationInput {
    pub target: ChangeExternalCanisterResourceTarget,
}

/// The operation a freshly built request will carry.
#[derive(Clone, Copy, Debug, PartialEq, Eq, Structural)]
pub enum RequestOperationInput {
    EditPermission(EditPermissionOperationInput),
}

/// A request ready for submission, without title or summary.
#[derive(Clone, Copy, Debug, PartialEq, Eq, Structural)]
pub struct CreateRequestInput {
    pub operation: RequestOperationInput,
}

/// Command-line arguments asking for canister permission changes.
#[derive(Clone, Copy, Debug, PartialEq, Eq, Structural)]
pub enum Args {
    Change(ChangeCanister),
}

/// Asks for the privilege of proposing upgrades of one unit, or of any.
#[derive(Clone, Copy, Debug, PartialEq, Eq, Structural)]
pub struct ChangeCanister {
    pub canister: Option<CanisterId>,
}

/// The request a permission-change argument set stands for.
pub open spec fn spec_create_request_input(c: ChangeCanister) -> CreateRequestInput {
    CreateRequestInput {
        operation: RequestOperationInput::EditPermission(
            EditPermissionOperationInput {
                target: match c.canister {
                    Some(id) => ChangeExternalCanisterResourceTarget::Canister(id),
                    None => ChangeExternalCanisterResourceTarget::Any,
                },
            },
        ),
    }
}

impl ChangeCanister {
    /// The request this argument set stands for: a permission edit aimed at
    /// the named unit, or at every unit when none is named.
    pub fn into_create_request_input(self) -> (r: CreateRequestInput)
        ensures
            r == spec_create_request_input(self),
    {
        let target = match self.canister {
            Some(c) => ChangeExternalCanisterResourceTarget::Canister(c),
            None => ChangeExternalCanisterResourceTarget::Any,
        };
        CreateRequestInput {
            operation: RequestOperationInput::EditPermission(
                EditPermissionOperationInput { target },
            ),
        }
    }
}

impl Args {
    /// Converts the argument tree into the request it asks for.
    pub fn into_create_request_input(self) -> (r: CreateRequestInput)
        ensures
            self matches Args::Change(c) ==> r == spec_create_request_input(c),
    {
        match self {
            Args::Change(change_args) => change_args.into_create_request_input(),
        }
    }
}

} // verus!
