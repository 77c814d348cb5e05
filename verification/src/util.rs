//! Runtime-directory resolution and the decimal text that the pidfile and
//! diagnostics are written in.

use vstd::prelude::*;
use vstd::string::*;

verus! {

/// The decimal digit character for `d` (meaningful for `d < 10`).
pub open spec fn spec_digit_char(d: nat) -> char {
    if d == 0 {
        '0'
    } else if d == 1 {
        '1'
    } else if d == 2 {
        '2'
    } else if d == 3 {
        '3'
    } else if d == 4 {
        '4'
    } else if d == 5 {
        '5'
    } else if d == 6 {
        '6'
    } else if d == 7 {
        '7'
    } else if d == 8 {
        '8'
    } else {
        '9'
    }
}

/// The decimal text of `n`, most significant digit first, no sign and no
/// leading zero (except for `n == 0` itself).
pub open spec fn spec_dec(n: nat) -> Seq<char>
    decreases n,
{
    if n < 10 {
        seq![spec_digit_char(n)]
    } else {
        spec_dec(n / 10) + seq![spec_digit_char(n % 10)]
    }
}

/// Every character of `s` is a decimal digit.
pub open spec fn spec_all_digits(s: Seq<char>) -> bool {
    forall|k: int| 0 <= k < s.len() ==> 48 <= #[trigger] s[k] as int <= 57
}

/// The number the digit string `s` denotes (meaningful when `s` is all
/// digits).
pub open spec fn spec_dec_value(s: Seq<char>) -> int
    decreases s.len(),
{
    if s.len() == 0 {
        0
    } else {
        spec_dec_value(s.drop_last()) * 10 + (s.last() as int - 48)
    }
}

proof fn lemma_digit_char_val(d: nat)
    requires
        d < 10,
    ensures
        spec_digit_char(d) as int == 48 + d,
{
}

/// Extending a digit prefix by one character multiplies its value by ten and
/// adds the new digit.
proof fn lemma_dec_value_step(s: Seq<char>, i: int)
    requires
        0 <= i < s.len(),
    ensures
        spec_dec_value(s.subrange(0, i + 1)) == spec_dec_value(s.subrange(0, i)) * 10 + (
        s[i] as int - 48),
{
    assert(s.subrange(0, i + 1).drop_last() =~= s.subrange(0, i));
    assert(s.subrange(0, i + 1).last() == s[i]);
}

/// Once a digit prefix is already too large for `u32`, the whole string is.
proof fn lemma_dec_value_prefix_overflow(s: Seq<char>, i: int)
    requires
        spec_all_digits(s),
        0 <= i <= s.len(),
        spec_dec_value(s.subrange(0, i)) > u32::MAX,
    ensures
        spec_dec_value(s) > u32::MAX,
    decreases s.len() - i,
{
    if i == s.len() {
        assert(s.subrange(0, i) =~= s);
    } else {
        lemma_dec_value_step(s, i);
        assert(spec_dec_value(s.subrange(0, i + 1)) > u32::MAX);
        lemma_dec_value_prefix_overflow(s, i + 1);
    }
}

/// Render one digit as text.
fn digit_str(d: u32) -> (r: &'static str)
    requires
        d < 10,
    ensures
        r@ =~= seq![spec_digit_char(d as nat)],
{
    proof {
        reveal_strlit("0");
        reveal_strlit("1");
        reveal_strlit("2");
        reveal_strlit("3");
        reveal_strlit("4");
        reveal_strlit("5");
        reveal_strlit("6");
        reveal_strlit("7");
        reveal_strlit("8");
        reveal_strlit("9");
    }
    match d {
        0 => "0",
        1 => "1",
        2 => "2",
        3 => "3",
        4 => "4",
        5 => "5",
        6 => "6",
        7 => "7",
        8 => "8",
        _ => "9",
    }
}

/// The decimal text of `n`, as the pidfile and diagnostics carry it.
pub fn u32_to_string(n: u32) -> (r: String)
    ensures
        r@ == spec_dec(n as nat),
    decreases n,
{
    let d = n % 10;
    if n < 10 {
        digit_str(n).to_owned()
    } else {
        let mut s = u32_to_string(n / 10);
        s.append(digit_str(d));
        assert(s@ =~= spec_dec(n as nat));
        s
    }
}

/// Read a `u32` from decimal text: `Some` exactly when the text is nonempty,
/// all digits, and small enough.
pub fn parse_u32(s: &str) -> (r: Option<u32>)
    ensures
        r is Some <==> (s@.len() > 0 && spec_all_digits(s@) && spec_dec_value(s@) <= u32::MAX),
        r matches Some(v) ==> v as int == spec_dec_value(s@),
{
    let len = s.unicode_len();
    if len == 0 {
        return None;
    }
    let mut acc: u32 = 0;
    let mut i: usize = 0;
    while i < len
        invariant
            len == s@.len(),
            0 <= i <= len,
            spec_all_digits(s@.subrange(0, i as int)),
            acc as int == spec_dec_value(s@.subrange(0, i as int)),
        decreases len - i,
    {
        let c = s.get_char(i);
        let v = c as u32;
        if v < 48 || v > 57 {
            return None;
        }
        let d = v - 48;
        proof {
            lemma_dec_value_step(s@, i as int);
        }
        if acc > 429_496_729 || (acc == 429_496_729 && d > 5) {
            proof {
                if spec_all_digits(s@) {
                    lemma_dec_value_prefix_overflow(s@, i + 1);
                }
            }
            return None;
        }
        acc = acc * 10 + d;
        i += 1;
    }
    proof {
        assert(s@.subrange(0, len as int) =~= s@);
    }
    Some(acc)
}

/// Rendering a number and reading it back is the identity: the text is
/// nonempty, all digits, and denotes the number itself.
pub proof fn lemma_decimal_round_trip(n: u32)
    ensures
        spec_dec(n as nat).len() >= 1,
        spec_all_digits(spec_dec(n as nat)),
        spec_dec_value(spec_dec(n as nat)) == n,
    decreases n,
{
    if n < 10 {
        let s = spec_dec(n as nat);
        lemma_digit_char_val(n as nat);
        assert(s.drop_last() =~= Seq::<char>::empty());
        assert(s.last() == spec_digit_char(n as nat));
        assert(spec_dec_value(s) == spec_dec_value(s.drop_last()) * 10 + (s.last() as int - 48));
    } else {
        lemma_decimal_round_trip(n / 10);
        lemma_digit_char_val((n % 10) as nat);
        vstd::arithmetic::div_mod::lemma_fundamental_div_mod(n as int, 10);
        let hd = spec_dec((n / 10) as nat);
        let s = spec_dec(n as nat);
        assert(s =~= hd + seq![spec_digit_char((n % 10) as nat)]);
        assert(s.drop_last() =~= hd);
        assert(s.last() == spec_digit_char((n % 10) as nat));
    }
}

/// What `String::from_utf8_lossy` returns for the byte sequence `b`: its
/// UTF-8 decoding, with each invalid sequence replaced by the replacement
/// character. A function of the bytes alone.
pub uninterp spec fn spec_lossy(b: Seq<u8>) -> Seq<char>;

/// Relies on String::from_utf8_lossy: the result depends on the bytes alone,
/// and bytes that are all ASCII (valid UTF-8) decode to themselves.
#[verifier::external_body]
pub(crate) fn bytes_to_text(b: &[u8]) -> (r: String)
    ensures
        r@ == spec_lossy(b@),
        (forall|i: int| 0 <= i < b@.len() ==> b@[i] < 128) ==> r@ == Seq::new(
            b@.len(),
            |i: int| b@[i] as char,
        ),
{
    String::from_utf8_lossy(b).into_owned()
}

/// Relies on users::get_current_uid: the numeric uid of the calling process,
/// read from the operating system.
#[verifier::external_body]
fn current_uid() -> (r: u32) {
    users::get_current_uid()
}

/// The per-uid fallback runtime directory.
pub fn default_runtime_dir(uid: u32) -> (r: String)
    ensures
        r@ == "/run/user/"@ + spec_dec(uid as nat),
{
    let mut s = ("/run/user/").to_owned();
    let num = u32_to_string(uid);
    s.append(num.as_str());
    s
}

/// Get the path of the user's runtime directory: the caller hands in the
/// value of the XDG_RUNTIME_DIR environment variable, and a per-uid default
/// stands in where it is unset.
pub fn runtime_dir(xdg: Option<String>) -> (r: String)
    ensures
        xdg matches Some(p) ==> r@ == p@,
        xdg is None ==> exists|uid: u32| r@ == "/run/user/"@ + spec_dec(uid as nat),
{
    match xdg {
        Some(path) => path,
        None => {
            let uid = current_uid();
            let r = default_runtime_dir(uid);
            proof {
                assert(r@ == "/run/user/"@ + spec_dec(uid as nat));
            }
            r
        },
    }
}

/// The socket the daemon listens on, inside the runtime directory.
pub fn socket_path(runtime_dir: &str) -> (r: String)
    ensures
        r@ == runtime_dir@ + "/replayd.sock"@,
{
    let mut s = runtime_dir.to_owned();
    s.append("/replayd.sock");
    s
}

} // verus!
