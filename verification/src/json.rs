use vstd::prelude::*;

verus! {

// ---------------------------------------------------------------------------
// Character classes
// ---------------------------------------------------------------------------

pub open spec fn is_ws(c: char) -> bool {
    c == ' ' || c == '\t' || c == '\n' || c == '\r'
}

pub open spec fn is_digit(c: char) -> bool {
    '0' <= c && c <= '9'
}

pub open spec fn digit_val(c: char) -> nat
    recommends
        is_digit(c),
{
    (c as int - 48) as nat
}

// ---------------------------------------------------------------------------
// Whitespace and digit runs.  Both are measured as the number of characters
// consumed, so that every position derived from them is trivially at or past
// the starting one.
// ---------------------------------------------------------------------------

pub open spec fn ws_count(s: Seq<char>, i: int) -> nat
    decreases s.len() - i,
{
    if 0 <= i && i < s.len() && is_ws(s[i]) {
        (1 + ws_count(s, i + 1)) as nat
    } else {
        0
    }
}

pub open spec fn digits_count(s: Seq<char>, i: int) -> nat
    decreases s.len() - i,
{
    if 0 <= i && i < s.len() && is_digit(s[i]) {
        (1 + digits_count(s, i + 1)) as nat
    } else {
        0
    }
}

fn ws_ct(s: &Vec<char>, i: usize) -> (r: usize)
    requires
        i <= s.len(),
    ensures
        r == ws_count(s@, i as int),
        i + r <= s.len(),
    decreases s.len() - i,
{
    if i < s.len() {
        let c = s[i];
        if c == ' ' || c == '\t' || c == '\n' || c == '\r' {
            1 + ws_ct(s, i + 1)
        } else {
            0
        }
    } else {
        0
    }
}

fn digits_ct(s: &Vec<char>, i: usize) -> (r: usize)
    requires
        i <= s.len(),
    ensures
        r == digits_count(s@, i as int),
        i + r <= s.len(),
    decreases s.len() - i,
{
    if i < s.len() {
        let c = s[i];
        if '0' <= c && c <= '9' {
            1 + digits_ct(s, i + 1)
        } else {
            0
        }
    } else {
        0
    }
}

// ---------------------------------------------------------------------------
// Strings.  `str_tail` reads the body of a string literal starting right
// after the opening quote; it yields the decoded content together with the
// number of source characters consumed, closing quote included.  An escape
// other than the simple ones (including a unicode escape), an unterminated
// literal, or a raw control character is a failure.
// ---------------------------------------------------------------------------

pub open spec fn unescape(c: char) -> Option<char> {
    if c == '"' {
        Some('"')
    } else if c == '\\' {
        Some('\\')
    } else if c == '/' {
        Some('/')
    } else if c == 'b' {
        Some('\u{0008}')
    } else if c == 'f' {
        Some('\u{000C}')
    } else if c == 'n' {
        Some('\n')
    } else if c == 'r' {
        Some('\r')
    } else if c == 't' {
        Some('\t')
    } else {
        None
    }
}

pub open spec fn str_tail(s: Seq<char>, i: int) -> Option<(Seq<char>, nat)>
    decreases s.len() - i,
{
    if i < 0 || i >= s.len() {
        None
    } else if s[i] == '"' {
        Some((Seq::empty(), 1nat))
    } else if s[i] == '\\' {
        if i + 1 >= s.len() {
            None
        } else {
            match unescape(s[i + 1]) {
                Some(e) => match str_tail(s, i + 2) {
                    Some(t) => Some((seq![e] + t.0, (2 + t.1) as nat)),
                    None => None,
                },
                None => None,
            }
        }
    } else if ' ' > s[i] {
        None
    } else {
        match str_tail(s, i + 1) {
            Some(t) => Some((seq![s[i]] + t.0, (1 + t.1) as nat)),
            None => None,
        }
    }
}

fn unescape_exec(c: char) -> (r: Option<char>)
    ensures
        r == unescape(c),
{
    if c == '"' {
        Some('"')
    } else if c == '\\' {
        Some('\\')
    } else if c == '/' {
        Some('/')
    } else if c == 'b' {
        Some('\u{0008}')
    } else if c == 'f' {
        Some('\u{000C}')
    } else if c == 'n' {
        Some('\n')
    } else if c == 'r' {
        Some('\r')
    } else if c == 't' {
        Some('\t')
    } else {
        None
    }
}

fn parse_str_tail(s: &Vec<char>, i: usize) -> (r: Option<(Vec<char>, usize)>)
    requires
        i <= s.len(),
    ensures
        match r {
            Some(t) => {
                &&& str_tail(s@, i as int) matches Some(st)
                &&& st.0 == t.0@
                &&& st.1 == t.1
                &&& i + t.1 <= s.len()
            },
            None => str_tail(s@, i as int) is None,
        },
    decreases s.len() - i,
{
    if i >= s.len() {
        None
    } else {
        let c = s[i];
        if c == '"' {
            Some((Vec::new(), 1))
        } else if c == '\\' {
            if i + 1 >= s.len() {
                None
            } else {
                match unescape_exec(s[i + 1]) {
                    Some(e) => match parse_str_tail(s, i + 2) {
                        Some((mut v, n)) => {
                            let ghost pre = v@;
                            v.insert(0, e);
                            proof {
                                assert(v@ =~= seq![e] + pre);
                            }
                            Some((v, 2 + n))
                        },
                        None => None,
                    },
                    None => None,
                }
            }
        } else if ' ' > c {
            None
        } else {
            match parse_str_tail(s, i + 1) {
                Some((mut v, n)) => {
                    let ghost pre = v@;
                    v.insert(0, c);
                    proof {
                        assert(v@ =~= seq![c] + pre);
                    }
                    Some((v, 1 + n))
                },
                None => None,
            }
        }
    }
}

// ---------------------------------------------------------------------------
// Numbers.  A number is an optional minus sign, an integer digit run, an
// optional fraction and an optional exponent; the raw literal text is kept
// as written.  The count covers the whole literal.
// ---------------------------------------------------------------------------

pub open spec fn number_count(s: Seq<char>, i: int) -> Option<nat> {
    let neg: nat = if 0 <= i && i < s.len() && s[i] == '-' {
        1nat
    } else {
        0nat
    };
    let d = digits_count(s, i + neg);
    if d == 0 {
        None
    } else {
        let p = i + neg + d;
        let frac: Option<nat> = if p < s.len() && s[p] == '.' {
            let f = digits_count(s, p + 1);
            if f == 0 {
                None
            } else {
                Some((1 + f) as nat)
            }
        } else {
            Some(0nat)
        };
        match frac {
            Some(fc) => {
                let q = p + fc;
                if q < s.len() && (s[q] == 'e' || s[q] == 'E') {
                    let sg: nat = if q + 1 < s.len() && (s[q + 1] == '+' || s[q + 1] == '-') {
                        1nat
                    } else {
                        0nat
                    };
                    let g = digits_count(s, q + 1 + sg);
                    if g == 0 {
                        None
                    } else {
                        Some((neg + d + fc + 1 + sg + g) as nat)
                    }
                } else {
                    Some((neg + d + fc) as nat)
                }
            },
            None => None,
        }
    }
}

fn number_ct(s: &Vec<char>, i: usize) -> (r: Option<usize>)
    requires
        i <= s.len(),
    ensures
        match r {
            Some(n) => number_count(s@, i as int) == Some(n as nat) && i + n <= s.len(),
            None => number_count(s@, i as int) is None,
        },
{
    let neg: usize = if i < s.len() && s[i] == '-' {
        1
    } else {
        0
    };
    let d = digits_ct(s, i + neg);
    if d == 0 {
        None
    } else {
        let p = i + neg + d;
        let frac: Option<usize> = if p < s.len() && s[p] == '.' {
            let f = digits_ct(s, p + 1);
            if f == 0 {
                None
            } else {
                Some(1 + f)
            }
        } else {
            Some(0)
        };
        match frac {
            Some(fc) => {
                let q = p + fc;
                if q < s.len() && (s[q] == 'e' || s[q] == 'E') {
                    let sg: usize = if q + 1 < s.len() && (s[q + 1] == '+' || s[q + 1] == '-') {
                        1
                    } else {
                        0
                    };
                    let g = digits_ct(s, q + 1 + sg);
                    if g == 0 {
                        None
                    } else {
                        Some(neg + d + fc + 1 + sg + g)
                    }
                } else {
                    Some(neg + d + fc)
                }
            },
            None => None,
        }
    }
}

// ---------------------------------------------------------------------------
// Object members.  An object's members are collected into a list; a member
// value is classified as a string (decoded), a number (raw text), a nested
// object (to be re-read at its recorded position), or anything else.  The
// raw span of every value is recorded so a caller can quote it verbatim.
// ---------------------------------------------------------------------------

pub enum MemberValV {
    VStr(Seq<char>),
    VNum(Seq<char>),
    VObj,
    VOther,
}

pub struct MemberV {
    pub key: Seq<char>,
    pub val: MemberValV,
    pub start: int,
    pub end: int,
}

pub enum MemberVal {
    VStr(Vec<char>),
    VNum(Vec<char>),
    VObj,
    VOther,
}

pub struct Member {
    pub key: Vec<char>,
    pub val: MemberVal,
    pub start: usize,
    pub end: usize,
}

pub open spec fn member_val_view(v: MemberVal) -> MemberValV {
    match v {
        MemberVal::VStr(c) => MemberValV::VStr(c@),
        MemberVal::VNum(c) => MemberValV::VNum(c@),
        MemberVal::VObj => MemberValV::VObj,
        MemberVal::VOther => MemberValV::VOther,
    }
}

pub open spec fn member_view(m: Member) -> MemberV {
    MemberV {
        key: m.key@,
        val: member_val_view(m.val),
        start: m.start as int,
        end: m.end as int,
    }
}

pub open spec fn members_view(ms: Seq<Member>) -> Seq<MemberV> {
    ms.map_values(|m: Member| member_view(m))
}

/// Remaining input from position `i`, clamped at zero; the termination
/// measure of the mutually recursive readers below.
pub open spec fn rem(s: Seq<char>, i: int) -> int {
    if i <= s.len() {
        s.len() - i
    } else {
        0
    }
}

pub open spec fn lit_true_at(s: Seq<char>, i: int) -> bool {
    i + 4 <= s.len() && s[i + 1] == 'r' && s[i + 2] == 'u' && s[i + 3] == 'e'
}

pub open spec fn lit_false_at(s: Seq<char>, i: int) -> bool {
    i + 5 <= s.len() && s[i + 1] == 'a' && s[i + 2] == 'l' && s[i + 3] == 's' && s[i + 4] == 'e'
}

pub open spec fn lit_null_at(s: Seq<char>, i: int) -> bool {
    i + 4 <= s.len() && s[i + 1] == 'u' && s[i + 2] == 'l' && s[i + 3] == 'l'
}

/// Number of characters occupied by one complete value starting at `i`.
pub open spec fn skip_value(s: Seq<char>, i: int) -> Option<nat>
    decreases rem(s, i), 0int,
{
    if i < 0 || i >= s.len() {
        None
    } else {
        let c = s[i];
        if c == '"' {
            match str_tail(s, i + 1) {
                Some(t) => Some((1 + t.1) as nat),
                None => None,
            }
        } else if c == '-' || is_digit(c) {
            number_count(s, i)
        } else if c == '{' {
            match members_entry(s, i + 1) {
                Some(t) => Some((1 + t.1) as nat),
                None => None,
            }
        } else if c == '[' {
            match elements_entry(s, i + 1) {
                Some(n) => Some((1 + n) as nat),
                None => None,
            }
        } else if c == 't' {
            if lit_true_at(s, i) {
                Some(4nat)
            } else {
                None
            }
        } else if c == 'f' {
            if lit_false_at(s, i) {
                Some(5nat)
            } else {
                None
            }
        } else if c == 'n' {
            if lit_null_at(s, i) {
                Some(4nat)
            } else {
                None
            }
        } else {
            None
        }
    }
}

/// Characters consumed inside an array, from right after `[` up to and
/// including the closing `]`.
pub open spec fn elements_entry(s: Seq<char>, i: int) -> Option<nat>
    decreases rem(s, i), 2int,
{
    let w = ws_count(s, i);
    let j = i + w;
    if j >= s.len() {
        None
    } else if s[j] == ']' {
        Some((w + 1) as nat)
    } else {
        match elements_at(s, j) {
            Some(n) => Some((w + n) as nat),
            None => None,
        }
    }
}

/// Characters consumed by a non-empty element list starting exactly at an
/// element, up to and including the closing `]`.
pub open spec fn elements_at(s: Seq<char>, i: int) -> Option<nat>
    decreases rem(s, i), 1int,
{
    if i < 0 || i >= s.len() {
        None
    } else {
        match skip_value(s, i) {
            Some(n) => {
            let p = i + n;
            let w = ws_count(s, p);
            let q = p + w;
            if q >= s.len() {
                None
            } else if s[q] == ',' {
                let w2 = ws_count(s, q + 1);
                match elements_at(s, q + 1 + w2) {
                    Some(m) => Some((n + w + 1 + w2 + m) as nat),
                    None => None,
                }
            } else if s[q] == ']' {
                Some((n + w + 1) as nat)
            } else {
                None
            }
            },
            None => None,
        }
    }
}

/// Member list of an object, from right after `{` up to and including the
/// closing `}`, together with the characters consumed.
pub open spec fn members_entry(s: Seq<char>, i: int) -> Option<(Seq<MemberV>, nat)>
    decreases rem(s, i), 2int,
{
    let w = ws_count(s, i);
    let j = i + w;
    if j >= s.len() {
        None
    } else if s[j] == '}' {
        Some((Seq::empty(), (w + 1) as nat))
    } else {
        match members_at(s, j) {
            Some(t) => Some((t.0, (w + t.1) as nat)),
            None => None,
        }
    }
}

/// A non-empty member list starting exactly at a member's opening quote,
/// up to and including the closing `}`.
pub open spec fn members_at(s: Seq<char>, i: int) -> Option<(Seq<MemberV>, nat)>
    decreases rem(s, i), 1int,
{
    if i < 0 || i >= s.len() || s[i] != '"' {
        None
    } else {
        match str_tail(s, i + 1) {
            Some(kt) => {
                let p1 = i + 1 + kt.1;
                let w1 = ws_count(s, p1);
                let p2 = p1 + w1;
                if p2 >= s.len() || s[p2] != ':' {
                    None
                } else {
                    let w2 = ws_count(s, p2 + 1);
                    let p3 = p2 + 1 + w2;
                    if p3 >= s.len() {
                        None
                    } else {
                        let c = s[p3];
                        let parsed: Option<(MemberValV, nat)> = if c == '"' {
                            match str_tail(s, p3 + 1) {
                                Some(vt) => Some((MemberValV::VStr(vt.0), (1 + vt.1) as nat)),
                                None => None,
                            }
                        } else {
                            match skip_value(s, p3) {
                                Some(n) => {
                                    if c == '-' || is_digit(c) {
                                        Some((MemberValV::VNum(s.subrange(p3, p3 + n)), n))
                                    } else if c == '{' {
                                        Some((MemberValV::VObj, n))
                                    } else {
                                        Some((MemberValV::VOther, n))
                                    }
                                },
                                None => None,
                            }
                        };
                        match parsed {
                            Some((val, vc)) => {
                                let p4 = p3 + vc;
                                let m = MemberV { key: kt.0, val: val, start: p3, end: p4 };
                                let w3 = ws_count(s, p4);
                                let p5 = p4 + w3;
                                if p5 >= s.len() {
                                    None
                                } else if s[p5] == ',' {
                                    let w4 = ws_count(s, p5 + 1);
                                    match members_at(s, p5 + 1 + w4) {
                                        Some(rt) => Some(
                                            (
                                                seq![m] + rt.0,
                                                (1 + kt.1 + w1 + 1 + w2 + vc + w3 + 1 + w4
                                                    + rt.1) as nat,
                                            ),
                                        ),
                                        None => None,
                                    }
                                } else if s[p5] == '}' {
                                    Some(
                                        (
                                            seq![m],
                                            (1 + kt.1 + w1 + 1 + w2 + vc + w3 + 1) as nat,
                                        ),
                                    )
                                } else {
                                    None
                                }
                            },
                            None => None,
                        }
                    }
                }
            },
            None => None,
        }
    }
}

// ---------------------------------------------------------------------------
// Executable readers, each returning exactly what its specification-level
// counterpart describes.
// ---------------------------------------------------------------------------

/// Every member's recorded value span lies inside the text, and the span
/// of an object value is non-empty, so its interior can be re-read.
pub open spec fn spans_ok(ms: Seq<Member>, len: int) -> bool {
    forall|k: int|
        0 <= k < ms.len() ==> {
            &&& #[trigger] ms[k].start <= ms[k].end <= len
            &&& (ms[k].val is VObj ==> ms[k].start < ms[k].end)
        }
}

/// Copies the text of a span, as for quoting a member's raw value.
pub fn copy_range(s: &Vec<char>, a: usize, b: usize) -> (r: Vec<char>)
    requires
        a <= b <= s.len(),
    ensures
        r@ == s@.subrange(a as int, b as int),
{
    let mut r: Vec<char> = Vec::new();
    let mut k = a;
    while k < b
        invariant
            a <= k <= b <= s.len(),
            r@ == s@.subrange(a as int, k as int),
        decreases b - k,
    {
        r.push(s[k]);
        k = k + 1;
        proof {
            assert(s@.subrange(a as int, k as int) =~= s@.subrange(a as int, k - 1).push(
                s@[k - 1],
            ));
        }
    }
    r
}

fn skip_value_exec(s: &Vec<char>, i: usize) -> (r: Option<usize>)
    requires
        i <= s.len(),
    ensures
        match r {
            Some(n) => skip_value(s@, i as int) == Some(n as nat) && i + n <= s.len(),
            None => skip_value(s@, i as int) is None,
        },
    decreases rem(s@, i as int), 0int,
{
    if i >= s.len() {
        None
    } else {
        let c = s[i];
        if c == '"' {
            match parse_str_tail(s, i + 1) {
                Some((_v, n)) => Some(1 + n),
                None => None,
            }
        } else if c == '-' || ('0' <= c && c <= '9') {
            number_ct(s, i)
        } else if c == '{' {
            match members_entry_exec(s, i + 1) {
                Some((_ms, n)) => Some(1 + n),
                None => None,
            }
        } else if c == '[' {
            match elements_entry_exec(s, i + 1) {
                Some(n) => Some(1 + n),
                None => None,
            }
        } else if c == 't' {
            if s.len() - i >= 4 && s[i + 1] == 'r' && s[i + 2] == 'u' && s[i + 3] == 'e' {
                Some(4)
            } else {
                None
            }
        } else if c == 'f' {
            if s.len() - i >= 5 && s[i + 1] == 'a' && s[i + 2] == 'l' && s[i + 3] == 's' && s[i
                + 4] == 'e' {
                Some(5)
            } else {
                None
            }
        } else if c == 'n' {
            if s.len() - i >= 4 && s[i + 1] == 'u' && s[i + 2] == 'l' && s[i + 3] == 'l' {
                Some(4)
            } else {
                None
            }
        } else {
            None
        }
    }
}

fn elements_entry_exec(s: &Vec<char>, i: usize) -> (r: Option<usize>)
    requires
        i <= s.len(),
    ensures
        match r {
            Some(n) => elements_entry(s@, i as int) == Some(n as nat) && i + n <= s.len(),
            None => elements_entry(s@, i as int) is None,
        },
    decreases rem(s@, i as int), 2int,
{
    let w = ws_ct(s, i);
    let j = i + w;
    if j >= s.len() {
        None
    } else if s[j] == ']' {
        Some(w + 1)
    } else {
        match elements_at_exec(s, j) {
            Some(n) => Some(w + n),
            None => None,
        }
    }
}

fn elements_at_exec(s: &Vec<char>, i: usize) -> (r: Option<usize>)
    requires
        i <= s.len(),
    ensures
        match r {
            Some(n) => elements_at(s@, i as int) == Some(n as nat) && i + n <= s.len(),
            None => elements_at(s@, i as int) is None,
        },
    decreases rem(s@, i as int), 1int,
{
    if i >= s.len() {
        None
    } else {
        match skip_value_exec(s, i) {
            Some(n) => {
                let p = i + n;
                let w = ws_ct(s, p);
                let q = p + w;
                if q >= s.len() {
                    None
                } else if s[q] == ',' {
                    let w2 = ws_ct(s, q + 1);
                    match elements_at_exec(s, q + 1 + w2) {
                        Some(m) => Some(n + w + 1 + w2 + m),
                        None => None,
                    }
                } else if s[q] == ']' {
                    Some(n + w + 1)
                } else {
                    None
                }
            },
            None => None,
        }
    }
}

/// Reads an object's member list starting right after its opening brace.
pub fn members_entry_exec(s: &Vec<char>, i: usize) -> (r: Option<(Vec<Member>, usize)>)
    requires
        i <= s.len(),
    ensures
        match r {
            Some(t) => {
                &&& members_entry(s@, i as int) matches Some(mt)
                &&& mt.0 == members_view(t.0@)
                &&& mt.1 == t.1
                &&& i + t.1 <= s.len()
                &&& spans_ok(t.0@, s@.len() as int)
            },
            None => members_entry(s@, i as int) is None,
        },
    decreases rem(s@, i as int), 2int,
{
    let w = ws_ct(s, i);
    let j = i + w;
    if j >= s.len() {
        None
    } else if s[j] == '}' {
        proof {
            assert(members_view(Seq::<Member>::empty()) =~= Seq::<MemberV>::empty());
        }
        Some((Vec::new(), w + 1))
    } else {
        match members_at_exec(s, j) {
            Some((ms, n)) => Some((ms, w + n)),
            None => None,
        }
    }
}

#[verifier::rlimit(100)]
fn members_at_exec(s: &Vec<char>, i: usize) -> (r: Option<(Vec<Member>, usize)>)
    requires
        i <= s.len(),
    ensures
        match r {
            Some(t) => {
                &&& members_at(s@, i as int) matches Some(mt)
                &&& mt.0 == members_view(t.0@)
                &&& mt.1 == t.1
                &&& i + t.1 <= s.len()
                &&& spans_ok(t.0@, s@.len() as int)
            },
            None => members_at(s@, i as int) is None,
        },
    decreases rem(s@, i as int), 1int,
{
    if i >= s.len() || s[i] != '"' {
        None
    } else {
        match parse_str_tail(s, i + 1) {
            Some((key, n1)) => {
                let p1 = i + 1 + n1;
                let w1 = ws_ct(s, p1);
                let p2 = p1 + w1;
                if p2 >= s.len() || s[p2] != ':' {
                    None
                } else {
                    let w2 = ws_ct(s, p2 + 1);
                    let p3 = p2 + 1 + w2;
                    if p3 >= s.len() {
                        None
                    } else {
                        let c = s[p3];
                        let parsed: Option<(MemberVal, usize)> = if c == '"' {
                            match parse_str_tail(s, p3 + 1) {
                                Some((v, m)) => Some((MemberVal::VStr(v), 1 + m)),
                                None => None,
                            }
                        } else {
                            match skip_value_exec(s, p3) {
                                Some(m) => {
                                    if c == '-' || ('0' <= c && c <= '9') {
                                        Some((MemberVal::VNum(copy_range(s, p3, p3 + m)), m))
                                    } else if c == '{' {
                                        Some((MemberVal::VObj, m))
                                    } else {
                                        Some((MemberVal::VOther, m))
                                    }
                                },
                                None => None,
                            }
                        };
                        match parsed {
                            Some((val, vc)) => {
                                let p4 = p3 + vc;
                                let m = Member { key, val, start: p3, end: p4 };
                                let ghost mv = member_view(m);
                                let w3 = ws_ct(s, p4);
                                let p5 = p4 + w3;
                                if p5 >= s.len() {
                                    None
                                } else if s[p5] == ',' {
                                    let w4 = ws_ct(s, p5 + 1);
                                    match members_at_exec(s, p5 + 1 + w4) {
                                        Some((mut ms, n2)) => {
                                            let ghost pre = ms@;
                                            ms.insert(0, m);
                                            proof {
                                                assert(members_view(ms@) =~= seq![mv]
                                                    + members_view(pre));
                                            }
                                            Some((ms, 1 + n1 + w1 + 1 + w2 + vc + w3 + 1 + w4
                                                + n2))
                                        },
                                        None => None,
                                    }
                                } else if s[p5] == '}' {
                                    let mut ms: Vec<Member> = Vec::new();
                                    ms.push(m);
                                    proof {
                                        assert(members_view(ms@) =~= seq![mv]);
                                    }
                                    Some((ms, 1 + n1 + w1 + 1 + w2 + vc + w3 + 1))
                                } else {
                                    None
                                }
                            },
                            None => None,
                        }
                    }
                }
            },
            None => None,
        }
    }
}

// ---------------------------------------------------------------------------
// A whole document: optional leading and trailing whitespace around exactly
// one object.  Everything downstream (events, result artifacts) reads such a
// document.
// ---------------------------------------------------------------------------

pub enum DocV {
    Members(Seq<MemberV>),
    /// The first significant character does not open an object.
    NotObject,
    /// The object's text itself is ill-formed.
    Malformed,
    /// Well-formed object followed by trailing significant characters.
    Trailing,
}

pub enum Doc {
    Members(Vec<Member>),
    NotObject,
    Malformed,
    Trailing,
}

pub open spec fn doc_view(d: Doc) -> DocV {
    match d {
        Doc::Members(ms) => DocV::Members(members_view(ms@)),
        Doc::NotObject => DocV::NotObject,
        Doc::Malformed => DocV::Malformed,
        Doc::Trailing => DocV::Trailing,
    }
}

/// The members of the single object that the whole text consists of.
pub open spec fn doc_of(s: Seq<char>) -> DocV {
    let w = ws_count(s, 0);
    let j = w as int;
    if j >= s.len() || s[j] != '{' {
        DocV::NotObject
    } else {
        match members_entry(s, j + 1) {
            Some(t) => {
                let e = j + 1 + t.1;
                if e + ws_count(s, e) == s.len() {
                    DocV::Members(t.0)
                } else {
                    DocV::Trailing
                }
            },
            None => DocV::Malformed,
        }
    }
}

/// Reads a whole text as one object document.
pub fn parse_doc(s: &Vec<char>) -> (r: Doc)
    ensures
        doc_view(r) == doc_of(s@),
        r matches Doc::Members(ms) ==> spans_ok(ms@, s@.len() as int),
{
    let w = ws_ct(s, 0);
    let j = w;
    if j >= s.len() || s[j] != '{' {
        Doc::NotObject
    } else {
        match members_entry_exec(s, j + 1) {
            Some((ms, n)) => {
                let e = j + 1 + n;
                let tw = ws_ct(s, e);
                if e + tw == s.len() {
                    Doc::Members(ms)
                } else {
                    Doc::Trailing
                }
            },
            None => Doc::Malformed,
        }
    }
}

// ---------------------------------------------------------------------------
// Looking a key up among an object's members.  The first member with the
// key wins.
// ---------------------------------------------------------------------------

pub open spec fn find_from(ms: Seq<MemberV>, key: Seq<char>, i: int) -> Option<MemberV>
    decreases ms.len() - i,
{
    if i < 0 || i >= ms.len() {
        None
    } else if ms[i].key == key {
        Some(ms[i])
    } else {
        find_from(ms, key, i + 1)
    }
}

pub open spec fn find_member(ms: Seq<MemberV>, key: Seq<char>) -> Option<MemberV> {
    find_from(ms, key, 0)
}

/// Whether two character vectors hold the same text.
pub fn chars_eq(a: &Vec<char>, b: &Vec<char>) -> (r: bool)
    ensures
        r == (a@ == b@),
{
    if a.len() != b.len() {
        return false;
    }
    let mut k: usize = 0;
    while k < a.len()
        invariant
            k <= a.len(),
            a.len() == b.len(),
            forall|j: int| 0 <= j < k ==> a@[j] == b@[j],
        decreases a.len() - k,
    {
        if a[k] != b[k] {
            return false;
        }
        k = k + 1;
    }
    proof {
        assert(a@ =~= b@);
    }
    true
}

fn find_idx(ms: &Vec<Member>, key: &Vec<char>, i: usize) -> (r: Option<usize>)
    requires
        i <= ms.len(),
    ensures
        match r {
            Some(k) => {
                &&& i <= k < ms.len()
                &&& find_from(members_view(ms@), key@, i as int) == Some(
                    member_view(ms@[k as int]),
                )
            },
            None => find_from(members_view(ms@), key@, i as int) is None,
        },
    decreases ms.len() - i,
{
    if i >= ms.len() {
        None
    } else if chars_eq(&ms[i].key, key) {
        Some(i)
    } else {
        find_idx(ms, key, i + 1)
    }
}

/// Index of the first member with the given key, if any.
pub fn find_member_idx(ms: &Vec<Member>, key: &Vec<char>) -> (r: Option<usize>)
    ensures
        match r {
            Some(k) => {
                &&& k < ms.len()
                &&& find_member(members_view(ms@), key@) == Some(member_view(ms@[k as int]))
            },
            None => find_member(members_view(ms@), key@) is None,
        },
{
    find_idx(ms, key, 0)
}

// ---------------------------------------------------------------------------
// Unsigned decimal values, for fields read as 64-bit numbers.
// ---------------------------------------------------------------------------

pub open spec fn all_digits(ds: Seq<char>) -> bool {
    forall|k: int| 0 <= k < ds.len() ==> is_digit(ds[k])
}

pub open spec fn digits_val(ds: Seq<char>) -> nat
    decreases ds.len(),
{
    if ds.len() == 0 {
        0
    } else {
        digits_val(ds.drop_last()) * 10 + digit_val(ds.last())
    }
}

proof fn lemma_digits_val_take_le(ds: Seq<char>, k: int)
    requires
        0 <= k <= ds.len(),
    ensures
        digits_val(ds.take(k)) <= digits_val(ds),
    decreases ds.len() - k,
{
    if k == ds.len() {
        assert(ds.take(k) =~= ds);
    } else {
        assert(ds.take(k + 1).drop_last() =~= ds.take(k));
        assert(ds.take(k + 1).last() == ds[k]);
        lemma_digits_val_take_le(ds, k + 1);
    }
}

fn digit_of(c: char) -> (d: u64)
    requires
        is_digit(c),
    ensures
        d == digit_val(c),
{
    if c == '0' {
        0
    } else if c == '1' {
        1
    } else if c == '2' {
        2
    } else if c == '3' {
        3
    } else if c == '4' {
        4
    } else if c == '5' {
        5
    } else if c == '6' {
        6
    } else if c == '7' {
        7
    } else if c == '8' {
        8
    } else {
        9
    }
}

/// The value of a run of decimal digits, or nothing when it does not fit
/// in 64 bits.
pub fn parse_u64_digits(ds: &Vec<char>) -> (r: Option<u64>)
    requires
        all_digits(ds@),
    ensures
        match r {
            Some(v) => v == digits_val(ds@),
            None => digits_val(ds@) > u64::MAX,
        },
{
    let mut acc: u64 = 0;
    let mut i: usize = 0;
    while i < ds.len()
        invariant
            all_digits(ds@),
            i <= ds.len(),
            acc == digits_val(ds@.take(i as int)),
        decreases ds.len() - i,
    {
        let c = ds[i];
        let d = digit_of(c);
        proof {
            assert(ds@.take(i + 1).drop_last() =~= ds@.take(i as int));
            assert(ds@.take(i + 1).last() == ds@[i as int]);
        }
        if acc > u64::MAX / 10 {
            proof {
                lemma_digits_val_take_le(ds@, i + 1);
            }
            return None;
        }
        let acc10 = acc * 10;
        if d > u64::MAX - acc10 {
            proof {
                lemma_digits_val_take_le(ds@, i + 1);
            }
            return None;
        }
        acc = acc10 + d;
        i = i + 1;
    }
    proof {
        assert(ds@.take(ds@.len() as int) =~= ds@);
    }
    Some(acc)
}

} // verus!
