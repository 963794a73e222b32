use vstd::prelude::*;
use vstd::string::StrSliceExecFns;
use vstd::utf8::encode_utf8;
use base64::Engine;

verus! {

/// Text of the XOAUTH2 initial response:
/// `user=<user>\x01auth=Bearer <token>\x01\x01`.
pub open spec fn xoauth2_text(user: Seq<char>, token: Seq<char>) -> Seq<char> {
    seq!['u', 's', 'e', 'r', '='] + user + seq!['\u{1}'] + seq![
        'a',
        'u',
        't',
        'h',
        '=',
        'B',
        'e',
        'a',
        'r',
        'e',
        'r',
        ' ',
    ] + token + seq!['\u{1}', '\u{1}']
}

/// Standard-alphabet, padded base64 encoding of `b`, as base64's
/// `general_purpose::STANDARD` engine computes it.
pub uninterp spec fn base64_standard(b: Seq<u8>) -> Seq<u8>;

/// Relies on base64's `Engine::encode` with the `STANDARD` engine: the padded
/// encoding, four output bytes for each started group of three input bytes.
/// It panics when that length overflows `usize`, which `requires` rules out.
#[verifier::external_body]
fn base64_encode(b: &Vec<u8>) -> (r: Vec<u8>)
    requires
        4 * ((b@.len() + 2) / 3) <= usize::MAX,
    ensures
        r@ == base64_standard(b@),
        r@.len() == 4 * ((b@.len() + 2) / 3),
{
    base64::engine::general_purpose::STANDARD.encode(b).into_bytes()
}

/// The XOAUTH2 SASL payload for `user` and bearer `access_token`, as UTF-8 bytes.
pub fn build_xoauth2_bytes(user: &str, access_token: &str) -> (r: Vec<u8>)
    ensures
        r@ == encode_utf8(xoauth2_text(user@, access_token@)),
{
    let mut s = String::new();
    s.append("user=");
    s.append(user);
    s.append("\u{1}");
    s.append("auth=Bearer ");
    s.append(access_token);
    s.append("\u{1}\u{1}");
    proof {
        reveal_strlit("user=");
        reveal_strlit("\u{1}");
        reveal_strlit("auth=Bearer ");
        reveal_strlit("\u{1}\u{1}");
        assert(s@ =~= xoauth2_text(user@, access_token@));
    }
    s.as_str().as_bytes_vec()
}

/// The two XOAUTH2 responses to offer, in order: the raw payload first, and
/// its base64 encoding for servers whose transport expects the caller to
/// encode. `None` when the encoding's length would not fit in memory.
pub fn xoauth2_attempts(user: &str, access_token: &str) -> (r: Option<(Vec<u8>, Vec<u8>)>)
    ensures
        ({
            let raw = encode_utf8(xoauth2_text(user@, access_token@));
            match r {
                Some((a, b)) => 4 * ((raw.len() + 2) / 3) <= usize::MAX && a@ == raw && b@
                    == base64_standard(raw),
                None => 4 * ((raw.len() + 2) / 3) > usize::MAX,
            }
        }),
{
    let raw = build_xoauth2_bytes(user, access_token);
    let n = raw.len();
    let groups: usize = n / 3 + if n % 3 > 0 {
        1
    } else {
        0
    };
    assert(groups == (n + 2) / 3);
    proof {
        let m = usize::MAX as int;
        assert(groups <= m / 4 <==> 4 * groups <= m) by (nonlinear_arith)
            requires
                m > 0,
                groups >= 0,
        ;
    }
    if groups > usize::MAX / 4 {
        return None;
    }
    let encoded = base64_encode(&raw);
    Some((raw, encoded))
}

} // verus!
