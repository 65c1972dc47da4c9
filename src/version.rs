use vstd::prelude::*;
use crate::text::chars_of;

verus! {

/// A "major.minor.patch" version number.
#[derive(Debug, Clone, Copy, PartialEq, Eq, Structural)]
pub struct Version {
    pub major: u32,
    pub minor: u32,
    pub patch: u32,
}

pub open spec fn is_digit(c: char) -> bool {
    '0' <= c && c <= '9'
}

pub open spec fn digit_value(c: char) -> nat {
    (c as int - '0' as int) as nat
}

pub open spec fn all_digits(d: Seq<char>) -> bool {
    forall|i: int| 0 <= i < d.len() ==> is_digit(#[trigger] d[i])
}

/// The number written by the decimal digits `d`, most significant first.
pub open spec fn decimal_value(d: Seq<char>) -> nat
    decreases d.len(),
{
    if d.len() == 0 {
        0
    } else {
        decimal_value(d.drop_last()) * 10 + digit_value(d.last())
    }
}

/// The digits of a decimal number, after an optional leading '+'.
pub open spec fn unsigned_digits(s: Seq<char>) -> Seq<char> {
    if s.len() > 0 && s[0] == '+' {
        s.drop_first()
    } else {
        s
    }
}

/// Reading `s` as a `u32`: an optional '+', then at least one decimal digit and
/// nothing else, of a value that fits in 32 bits.
pub open spec fn parse_u32_spec(s: Seq<char>) -> Option<u32> {
    let d = unsigned_digits(s);
    if d.len() > 0 && all_digits(d) && decimal_value(d) <= u32::MAX {
        Some(decimal_value(d) as u32)
    } else {
        None
    }
}

/// The pieces of `s` between the '.' characters, in order; a text without '.'
/// is one piece.
pub open spec fn split_dots(s: Seq<char>) -> Seq<Seq<char>>
    decreases s.len(),
{
    if s.len() == 0 {
        seq![Seq::empty()]
    } else {
        let p = split_dots(s.drop_last());
        if s.last() == '.' {
            p.push(Seq::empty())
        } else {
            p.update(p.len() - 1, p.last().push(s.last()))
        }
    }
}

/// The version that a text denotes: its first three dot-separated pieces, each a
/// `u32`; anything after the third piece is not read.
pub open spec fn version_spec(s: Seq<char>) -> Option<Version> {
    let p = split_dots(s);
    if p.len() >= 3 && parse_u32_spec(p[0]) is Some && parse_u32_spec(p[1]) is Some
        && parse_u32_spec(p[2]) is Some {
        Some(
            Version {
                major: parse_u32_spec(p[0])->0,
                minor: parse_u32_spec(p[1])->0,
                patch: parse_u32_spec(p[2])->0,
            },
        )
    } else {
        None
    }
}

/// The decimal digit character for `d < 10`.
pub open spec fn digit_char(d: nat) -> char {
    ((d + 48) as u8) as char
}

/// The decimal text of `n`, without leading zeros.
pub open spec fn decimal_text(n: nat) -> Seq<char>
    decreases n,
{
    if n < 10 {
        seq![digit_char(n)]
    } else {
        decimal_text(n / 10).push(digit_char(n % 10))
    }
}

/// The "major.minor.patch" text of a version.
pub open spec fn version_text(v: Version) -> Seq<char> {
    decimal_text(v.major as nat) + seq!['.'] + decimal_text(v.minor as nat) + seq!['.']
        + decimal_text(v.patch as nat)
}

proof fn lemma_digit_char(d: nat)
    requires
        d < 10,
    ensures
        is_digit(digit_char(d)),
        digit_value(digit_char(d)) == d,
        digit_char(d) != '.',
        digit_char(d) != '+',
{
    assert(digit_char(d) as int == d + 48);
}

proof fn lemma_decimal_text(n: nat)
    ensures
        decimal_text(n).len() > 0,
        all_digits(decimal_text(n)),
        decimal_value(decimal_text(n)) == n,
        !decimal_text(n).contains('.'),
    decreases n,
{
    if n >= 10 {
        lemma_decimal_text(n / 10);
        lemma_digit_char(n % 10);
        let t = decimal_text(n / 10);
        let u = decimal_text(n);
        assert(u.drop_last() =~= t);
        assert(u.last() == digit_char(n % 10));
        vstd::arithmetic::div_mod::lemma_fundamental_div_mod(n as int, 10);
        assert(decimal_value(u) == decimal_value(t) * 10 + digit_value(digit_char(n % 10)));
        assert forall|i: int| 0 <= i < u.len() implies is_digit(#[trigger] u[i]) by {
            if i < t.len() {
                assert(u[i] == t[i]);
            }
        }
        assert(!u.contains('.')) by {
            if u.contains('.') {
                let i = choose|i: int| 0 <= i < u.len() && u[i] == '.';
                if i < t.len() {
                    assert(t[i] == u[i]);
                }
            }
        }
    } else {
        lemma_digit_char(n);
        let u = decimal_text(n);
        assert(u.drop_last() =~= Seq::<char>::empty());
        assert(decimal_value(u.drop_last()) == 0);
        assert(u.last() == digit_char(n));
        assert(!u.contains('.')) by {
            if u.contains('.') {
                let i = choose|i: int| 0 <= i < u.len() && u[i] == '.';
                assert(i == 0);
            }
        }
    }
}

proof fn lemma_parse_decimal_text(n: nat)
    requires
        n <= u32::MAX,
    ensures
        parse_u32_spec(decimal_text(n)) == Some(n as u32),
{
    lemma_decimal_text(n);
    let t = decimal_text(n);
    assert(is_digit(t[0]));
    assert(unsigned_digits(t) == t);
}

proof fn lemma_split_no_dot(s: Seq<char>, t: Seq<char>)
    requires
        !t.contains('.'),
    ensures
        split_dots(s + t) == split_dots(s).update(
            split_dots(s).len() - 1,
            split_dots(s).last() + t,
        ),
        split_dots(s + t).len() == split_dots(s).len(),
    decreases t.len(),
{
    lemma_split_dots_nonempty(s);
    if t.len() == 0 {
        assert(s + t =~= s);
        assert(split_dots(s).last() + t =~= split_dots(s).last());
        assert(split_dots(s).update(split_dots(s).len() - 1, split_dots(s).last())
            =~= split_dots(s));
    } else {
        let u = t.drop_last();
        assert(!u.contains('.')) by {
            if u.contains('.') {
                let i = choose|i: int| 0 <= i < u.len() && u[i] == '.';
                assert(t[i] == '.');
            }
        }
        lemma_split_no_dot(s, u);
        assert((s + t).drop_last() =~= s + u);
        assert((s + t).last() == t.last());
        assert(t.last() != '.') by {
            assert(t[t.len() - 1] == t.last());
        }
        let p = split_dots(s);
        assert(split_dots(s + t) =~= p.update(p.len() - 1, p.last() + t)) by {
            assert(p.last() + u + seq![t.last()] =~= p.last() + t);
            assert((p.last() + u).push(t.last()) =~= p.last() + t);
        }
    }
}

proof fn lemma_split_dot(s: Seq<char>)
    ensures
        split_dots(s + seq!['.']) == split_dots(s).push(Seq::empty()),
{
    let u = s + seq!['.'];
    assert(u.drop_last() =~= s);
}

proof fn lemma_split_version_text(v: Version)
    ensures
        split_dots(version_text(v)) == seq![
            decimal_text(v.major as nat),
            decimal_text(v.minor as nat),
            decimal_text(v.patch as nat),
        ],
{
    let a = decimal_text(v.major as nat);
    let b = decimal_text(v.minor as nat);
    let c = decimal_text(v.patch as nat);
    lemma_decimal_text(v.major as nat);
    lemma_decimal_text(v.minor as nat);
    lemma_decimal_text(v.patch as nat);
    let e = Seq::<char>::empty();
    lemma_split_no_dot(e, a);
    assert(e + a =~= a);
    assert(split_dots(e) == seq![e]);
    assert(split_dots(a) =~= seq![a]) by {
        assert(seq![e].last() + a =~= a);
    }
    lemma_split_dot(a);
    let a1 = a + seq!['.'];
    lemma_split_no_dot(a1, b);
    assert(split_dots(a1 + b) =~= seq![a, b]) by {
        assert(e + b =~= b);
    }
    let a2 = a1 + b;
    lemma_split_dot(a2);
    let a3 = a2 + seq!['.'];
    lemma_split_no_dot(a3, c);
    assert(split_dots(a3 + c) =~= seq![a, b, c]) by {
        assert(e + c =~= c);
    }
    assert(a3 + c =~= version_text(v));
}

/// Reading the text of a version gives back that version.
pub proof fn lemma_version_text_round_trip(v: Version)
    ensures
        version_spec(version_text(v)) == Some(v),
{
    lemma_split_version_text(v);
    lemma_parse_decimal_text(v.major as nat);
    lemma_parse_decimal_text(v.minor as nat);
    lemma_parse_decimal_text(v.patch as nat);
}

proof fn lemma_split_dots_nonempty(s: Seq<char>)
    ensures
        split_dots(s).len() >= 1,
    decreases s.len(),
{
    if s.len() > 0 {
        lemma_split_dots_nonempty(s.drop_last());
    }
}

proof fn lemma_decimal_prefix(d: Seq<char>, k: int)
    requires
        0 <= k <= d.len(),
        all_digits(d),
    ensures
        decimal_value(d.take(k)) <= decimal_value(d),
    decreases d.len(),
{
    if k < d.len() {
        let e = d.drop_last();
        assert(all_digits(e)) by {
            assert forall|i: int| 0 <= i < e.len() implies is_digit(#[trigger] e[i]) by {
                assert(e[i] == d[i]);
            }
        }
        lemma_decimal_prefix(e, k);
        assert(e.take(k) =~= d.take(k));
    } else {
        assert(d.take(k) =~= d);
    }
}

fn digit_of(c: char) -> (r: Option<u32>)
    ensures
        r == (if is_digit(c) {
            Some(digit_value(c) as u32)
        } else {
            None::<u32>
        }),
{
    if '0' <= c && c <= '9' {
        Some((c as u32) - ('0' as u32))
    } else {
        None
    }
}

/// Reads a `u32` written in decimal, as `parse_u32_spec` describes.
pub fn parse_u32(s: &Vec<char>) -> (r: Option<u32>)
    ensures
        r == parse_u32_spec(s@),
{
    let start: usize = if s.len() > 0 && s[0] == '+' {
        1
    } else {
        0
    };
    let ghost d = unsigned_digits(s@);
    assert(d =~= s@.subrange(start as int, s@.len() as int));
    if start == s.len() {
        return None;
    }
    let mut acc: u64 = 0;
    let mut i: usize = start;
    while i < s.len()
        invariant
            start <= i <= s.len(),
            d == unsigned_digits(s@),
            d =~= s@.subrange(start as int, s@.len() as int),
            all_digits(d.take(i - start)),
            acc == decimal_value(d.take(i - start)),
            acc <= u32::MAX,
        decreases s.len() - i,
    {
        let k: Ghost<int> = Ghost(i - start);
        match digit_of(s[i]) {
            None => {
                assert(d[k@] == s@[i as int]);
                assert(!all_digits(d));
                return None;
            },
            Some(v) => {
                assert(d.take(k@ + 1).drop_last() =~= d.take(k@));
                assert(d.take(k@ + 1).last() == s@[i as int]);
                acc = acc * 10 + v as u64;
                assert(all_digits(d.take(k@ + 1))) by {
                    assert forall|j: int| 0 <= j < k@ + 1 implies is_digit(
                        #[trigger] d.take(k@ + 1)[j],
                    ) by {
                        if j < k@ {
                            assert(d.take(k@ + 1)[j] == d.take(k@)[j]);
                        }
                    }
                }
                if acc > 0xffff_ffffu64 {
                    proof {
                        if all_digits(d) {
                            lemma_decimal_prefix(d, k@ + 1);
                        }
                    }
                    return None;
                }
            },
        }
        i = i + 1;
    }
    assert(d.take(d.len() as int) =~= d);
    Some(acc as u32)
}

/// Splits `s` at each '.'.
fn split_at_dots(s: &Vec<char>) -> (r: Vec<Vec<char>>)
    ensures
        r@.len() == split_dots(s@).len(),
        forall|j: int| 0 <= j < r@.len() ==> #[trigger] r@[j]@ == split_dots(s@)[j],
{
    let mut done: Vec<Vec<char>> = Vec::new();
    let mut cur: Vec<char> = Vec::new();
    let mut i: usize = 0;
    assert(s@.take(0) =~= Seq::<char>::empty());
    while i < s.len()
        invariant
            i <= s.len(),
            done@.len() + 1 == split_dots(s@.take(i as int)).len(),
            forall|j: int|
                0 <= j < done@.len() ==> #[trigger] done@[j]@ == split_dots(s@.take(i as int))[j],
            cur@ == split_dots(s@.take(i as int)).last(),
        decreases s.len() - i,
    {
        let c = s[i];
        let ghost before = s@.take(i as int);
        assert(s@.take(i + 1).drop_last() =~= before);
        if c == '.' {
            done.push(cur);
            cur = Vec::new();
        } else {
            cur.push(c);
        }
        i = i + 1;
    }
    assert(s@.take(s@.len() as int) =~= s@);
    done.push(cur);
    done
}

/// The one-character text of the decimal digit `d`.
fn digit_str(d: u32) -> (r: &'static str)
    requires
        d < 10,
    ensures
        r@ == seq![digit_char(d as nat)],
{
    proof {
        reveal_strlit("0");
        reveal_strlit("1");
        reveal_strlit("2");
        reveal_strlit("3");
        reveal_strlit("4");
        reveal_strlit("5");
        reveal_strlit("6");
        reveal_strlit("7");
        reveal_strlit("8");
        reveal_strlit("9");
    }
    let r = match d {
        0 => "0",
        1 => "1",
        2 => "2",
        3 => "3",
        4 => "4",
        5 => "5",
        6 => "6",
        7 => "7",
        8 => "8",
        _ => "9",
    };
    assert(r@ =~= seq![digit_char(d as nat)]);
    r
}

/// Appends the decimal text of `n` to `out`.
fn push_decimal(out: &mut String, n: u32)
    ensures
        final(out)@ == old(out)@ + decimal_text(n as nat),
    decreases n,
{
    if n >= 10 {
        push_decimal(out, n / 10);
    }
    out.append(digit_str(n % 10));
    proof {
        if n >= 10 {
            assert(decimal_text(n as nat) == decimal_text((n / 10) as nat).push(digit_char((n % 10) as nat)));
        } else {
            assert(n % 10 == n);
        }
        assert(out@ =~= old(out)@ + decimal_text(n as nat));
    }
}

impl Version {
    pub fn new(major: u32, minor: u32, patch: u32) -> (r: Version)
        ensures
            r == (Version { major, minor, patch }),
    {
        Version { major, minor, patch }
    }

    /// Reads a "major.minor.patch" text; `None` where one of the first three
    /// pieces is not a `u32` or there are fewer than three.
    pub fn from(v: String) -> (r: Option<Version>)
        ensures
            r == version_spec(v@),
    {
        let chars = chars_of(v.as_str());
        let parts = split_at_dots(&chars);
        if parts.len() < 3 {
            return None;
        }
        assert(parts@[0]@ == split_dots(v@)[0] && parts@[1]@ == split_dots(v@)[1]
            && parts@[2]@ == split_dots(v@)[2]);
        let major = match parse_u32(&parts[0]) {
            Some(n) => n,
            None => return None,
        };
        let minor = match parse_u32(&parts[1]) {
            Some(n) => n,
            None => return None,
        };
        let patch = match parse_u32(&parts[2]) {
            Some(n) => n,
            None => return None,
        };
        Some(Version { major, minor, patch })
    }

    /// The "major.minor.patch" text of this version.
    pub fn to_text(&self) -> (r: String)
        ensures
            r@ == version_text(*self),
    {
        let mut r = String::new();
        push_decimal(&mut r, self.major);
        r.append(".");
        push_decimal(&mut r, self.minor);
        r.append(".");
        push_decimal(&mut r, self.patch);
        proof {
            reveal_strlit(".");
        }
        assert(r@ =~= version_text(*self));
        r
    }

    /// Whether a configuration written for `self` is older, by major number,
    /// than the program version `program`.
    pub fn is_older_major_than(&self, program: &Version) -> (r: bool)
        ensures
            r == (self.major < program.major),
    {
        self.major < program.major
    }
}

} // verus!
