use vstd::prelude::*;

verus! {

/// `i` is the position of the first `c` in `s`.
pub open spec fn is_first_of(s: Seq<char>, c: char, i: int) -> bool {
    &&& 0 <= i < s.len()
    &&& s[i] == c
    &&& forall|j: int| 0 <= j < i ==> s[j] != c
}

/// The text before and after the first `c` of `s`, if `s` holds one.
pub open spec fn split_once_spec(s: Seq<char>, c: char) -> Option<(Seq<char>, Seq<char>)> {
    if exists|i: int| is_first_of(s, c, i) {
        let i = choose|i: int| is_first_of(s, c, i);
        Some((s.subrange(0, i), s.subrange(i + 1, s.len() as int)))
    } else {
        None
    }
}

/// Splits `s` at the first occurrence of `c`.
pub fn split_once_char(s: &str, c: char) -> (r: Option<(&str, &str)>)
    ensures
        r is None <==> split_once_spec(s@, c) is None,
        r is Some ==> (r->Some_0.0@, r->Some_0.1@) == split_once_spec(s@, c)->Some_0,
{
    let n = s.unicode_len();
    let mut i: usize = 0;
    while i < n
        invariant
            n == s@.len(),
            i <= n,
            forall|j: int| 0 <= j < i ==> s@[j] != c,
        decreases n - i,
    {
        if s.get_char(i) == c {
            assert(is_first_of(s@, c, i as int));
            assert forall|k: int| is_first_of(s@, c, k) implies k == i as int by {
                if k < i {
                } else if k > i {
                    assert(s@[i as int] == c);
                }
            }
            let before = s.substring_char(0, i);
            let after = s.substring_char(i + 1, n);
            return Some((before, after));
        }
        i += 1;
    }
    None
}

/// The decimal digit `d` as a character.
pub open spec fn digit_char(d: nat) -> char {
    if d == 0 {
        '0'
    } else if d == 1 {
        '1'
    } else if d == 2 {
        '2'
    } else if d == 3 {
        '3'
    } else if d == 4 {
        '4'
    } else if d == 5 {
        '5'
    } else if d == 6 {
        '6'
    } else if d == 7 {
        '7'
    } else if d == 8 {
        '8'
    } else {
        '9'
    }
}

/// The decimal text of `n`, without leading zeros.
pub open spec fn decimal_spec(n: nat) -> Seq<char>
    decreases n,
{
    if n < 10 {
        seq![digit_char(n)]
    } else {
        decimal_spec(n / 10) + seq![digit_char(n % 10)]
    }
}

fn digit_str(d: u16) -> (r: &'static str)
    requires
        d < 10,
    ensures
        r@ == seq![digit_char(d as nat)],
{
    proof {
        reveal_strlit("0");
        reveal_strlit("1");
        reveal_strlit("2");
        reveal_strlit("3");
        reveal_strlit("4");
        reveal_strlit("5");
        reveal_strlit("6");
        reveal_strlit("7");
        reveal_strlit("8");
        reveal_strlit("9");
    }
    let r = if d == 0 {
        "0"
    } else if d == 1 {
        "1"
    } else if d == 2 {
        "2"
    } else if d == 3 {
        "3"
    } else if d == 4 {
        "4"
    } else if d == 5 {
        "5"
    } else if d == 6 {
        "6"
    } else if d == 7 {
        "7"
    } else if d == 8 {
        "8"
    } else {
        "9"
    };
    assert(r@ =~= seq![digit_char(d as nat)]);
    r
}

/// The decimal text of `n`.
pub fn decimal_text(n: u16) -> (r: String)
    ensures
        r@ == decimal_spec(n as nat),
    decreases n,
{
    if n < 10 {
        String::from_str(digit_str(n))
    } else {
        let mut s = decimal_text(n / 10);
        s.append(digit_str(n % 10));
        s
    }
}

/// A character of Unicode's White_Space property.
pub open spec fn is_white_space(c: char) -> bool {
    let u = c as u32;
    (0x09 <= u <= 0x0d) || u == 0x20 || u == 0x85 || u == 0xa0 || u == 0x1680 || (0x2000 <= u
        <= 0x200a) || u == 0x2028 || u == 0x2029 || u == 0x202f || u == 0x205f || u == 0x3000
}

/// `r` is `s` with its leading and trailing white space removed.
pub open spec fn is_trim_of(s: Seq<char>, r: Seq<char>) -> bool {
    exists|a: int, b: int|
        {
            &&& 0 <= a <= b <= s.len()
            &&& r == s.subrange(a, b)
            &&& forall|i: int| 0 <= i < a ==> is_white_space(#[trigger] s[i])
            &&& forall|i: int| b <= i < s.len() ==> is_white_space(#[trigger] s[i])
            &&& a < b ==> !is_white_space(s[a]) && !is_white_space(s[b - 1])
        }
}

/// `s` without its leading and trailing white space.
pub fn trim(s: &str) -> (r: &str)
    ensures
        is_trim_of(s@, r@),
{
    let n = s.unicode_len();
    let mut a: usize = 0;
    while a < n && is_white_space_char(s.get_char(a))
        invariant
            n == s@.len(),
            a <= n,
            forall|i: int| 0 <= i < a ==> is_white_space(#[trigger] s@[i]),
        decreases n - a,
    {
        a += 1;
    }
    let mut b: usize = n;
    while b > a && is_white_space_char(s.get_char(b - 1))
        invariant
            n == s@.len(),
            a <= b <= n,
            a == n || !is_white_space(s@[a as int]),
            forall|i: int| b <= i < n ==> is_white_space(#[trigger] s@[i]),
        decreases b - a,
    {
        b -= 1;
    }
    let r = s.substring_char(a, b);
    assert(a < b ==> !is_white_space(s@[a as int]) && !is_white_space(s@[b - 1]));
    r
}

/// The text of a poll for a question: `None` when it is only white space,
/// else the text with surrounding white space removed.
pub fn question_from_poll(text: &str) -> (r: Option<String>)
    ensures
        r is None <==> forall|i: int| 0 <= i < text@.len() ==> is_white_space(#[trigger] text@[i]),
        r is Some ==> is_trim_of(text@, r->Some_0@) && r->Some_0@.len() > 0,
{
    let t = trim(text);
    if t.unicode_len() == 0 {
        proof {
            let (a, b) = choose|a: int, b: int|
                {
                    &&& 0 <= a <= b <= text@.len()
                    &&& t@ == text@.subrange(a, b)
                    &&& forall|i: int| 0 <= i < a ==> is_white_space(#[trigger] text@[i])
                    &&& forall|i: int| b <= i < text@.len() ==> is_white_space(#[trigger] text@[i])
                    &&& a < b ==> !is_white_space(text@[a]) && !is_white_space(text@[b - 1])
                };
            assert forall|i: int| 0 <= i < text@.len() implies is_white_space(#[trigger] text@[i]) by {
                if i >= a && i < b {
                    assert(t@.len() == b - a);
                }
            }
        }
        None
    } else {
        proof {
            let (a, b) = choose|a: int, b: int|
                {
                    &&& 0 <= a <= b <= text@.len()
                    &&& t@ == text@.subrange(a, b)
                    &&& forall|i: int| 0 <= i < a ==> is_white_space(#[trigger] text@[i])
                    &&& forall|i: int| b <= i < text@.len() ==> is_white_space(#[trigger] text@[i])
                    &&& a < b ==> !is_white_space(text@[a]) && !is_white_space(text@[b - 1])
                };
            assert(!is_white_space(text@[a]));
        }
        Some(String::from_str(t))
    }
}

/// `n` spaces.
pub open spec fn spaces(n: nat) -> Seq<char> {
    Seq::new(n, |i: int| ' ')
}

/// The spaces before a text of `bytes` bytes centered on a line `width` wide.
pub open spec fn center_pad(width: usize, bytes: usize) -> nat {
    (if width > bytes {
        (width - bytes) as nat
    } else {
        0nat
    }) / 2
}

/// `text` preceded by enough spaces to center it on a line `width` wide; the
/// text's width is taken as its length in bytes (`str::len`).
pub fn center(text: &str, width: usize) -> (r: String)
    ensures
        r@ == spaces(center_pad(width, text.len())) + text@,
{
    let bytes = text.len();
    let pad = if width > bytes {
        (width - bytes) / 2
    } else {
        0
    };
    let mut r = String::new();
    let mut i: usize = 0;
    while i < pad
        invariant
            i <= pad,
            r@ == spaces(i as nat),
        decreases pad - i,
    {
        r.append(" ");
        proof {
            reveal_strlit(" ");
        }
        assert(r@ =~= spaces((i + 1) as nat));
        i += 1;
    }
    r.append(text);
    r
}

/// `n` copies of `unit`.
pub open spec fn repeat_spec(unit: Seq<char>, n: nat) -> Seq<char>
    decreases n,
{
    if n == 0 {
        Seq::empty()
    } else {
        repeat_spec(unit, (n - 1) as nat) + unit
    }
}

/// `n` copies of `unit`, one after another.
pub fn repeat(unit: &str, n: usize) -> (r: String)
    ensures
        r@ == repeat_spec(unit@, n as nat),
{
    let mut r = String::new();
    let mut i: usize = 0;
    while i < n
        invariant
            i <= n,
            r@ == repeat_spec(unit@, i as nat),
        decreases n - i,
    {
        r.append(unit);
        i += 1;
    }
    r
}

/// A line whose first character that is not white space is `#`.
pub open spec fn is_comment_line(line: Seq<char>) -> bool {
    exists|i: int|
        0 <= i < line.len() && line[i] == '#' && forall|j: int|
            0 <= j < i ==> is_white_space(#[trigger] line[j])
}

/// The lines of `ls` that are not comment lines, in order.
pub open spec fn non_comment_lines(ls: Seq<Seq<char>>) -> Seq<Seq<char>>
    decreases ls.len(),
{
    if ls.len() == 0 {
        Seq::empty()
    } else if is_comment_line(ls.last()) {
        non_comment_lines(ls.drop_last())
    } else {
        non_comment_lines(ls.drop_last()).push(ls.last())
    }
}

/// The lines of `ls` joined by line breaks.
pub open spec fn join_lines(ls: Seq<Seq<char>>) -> Seq<char>
    decreases ls.len(),
{
    if ls.len() == 0 {
        Seq::empty()
    } else if ls.len() == 1 {
        ls[0]
    } else {
        join_lines(ls.drop_last()) + seq!['\n'] + ls.last()
    }
}

/// Whether `line` is a comment line.
pub fn is_comment(line: &str) -> (r: bool)
    ensures
        r == is_comment_line(line@),
{
    let n = line.unicode_len();
    let mut i: usize = 0;
    while i < n
        invariant
            n == line@.len(),
            i <= n,
            forall|j: int| 0 <= j < i ==> is_white_space(#[trigger] line@[j]),
        decreases n - i,
    {
        let c = line.get_char(i);
        if c == '#' {
            return true;
        }
        if !is_white_space_char(c) {
            assert forall|k: int| 0 <= k < line@.len() && line@[k] == '#' implies !(forall|j: int|
                0 <= j < k ==> is_white_space(#[trigger] line@[j])) by {
                if k > i {
                    assert(!is_white_space(line@[i as int]));
                }
            }
            return false;
        }
        i += 1;
    }
    false
}

/// Whether `c` has Unicode's White_Space property.
pub fn is_white_space_char(c: char) -> (r: bool)
    ensures
        r == is_white_space(c),
{
    let u = c as u32;
    (0x09 <= u && u <= 0x0d) || u == 0x20 || u == 0x85 || u == 0xa0 || u == 0x1680 || (0x2000 <= u
        && u <= 0x200a) || u == 0x2028 || u == 0x2029 || u == 0x202f || u == 0x205f || u == 0x3000
}

/// The task description in the lines of an edited text: the lines that are
/// not comments, joined by line breaks, without surrounding white space;
/// `None` when nothing but white space is left.
pub fn task_from_lines(lines: &Vec<String>) -> (r: Option<String>)
    ensures
        ({
            let joined = join_lines(non_comment_lines(lines@.map_values(|l: String| l@)));
            &&& r is None <==> forall|i: int|
                0 <= i < joined.len() ==> is_white_space(#[trigger] joined[i])
            &&& r is Some ==> is_trim_of(joined, r->Some_0@) && r->Some_0@.len() > 0
        }),
{
    let ghost views = lines@.map_values(|l: String| l@);
    let mut joined = String::new();
    let mut any = false;
    let mut i: usize = 0;
    while i < lines.len()
        invariant
            i <= lines@.len(),
            views == lines@.map_values(|l: String| l@),
            joined@ == join_lines(non_comment_lines(views.take(i as int))),
            any == (non_comment_lines(views.take(i as int)).len() > 0),
        decreases lines@.len() - i,
    {
        assert(views.take(i + 1).drop_last() =~= views.take(i as int));
        assert(views.take(i + 1).last() == lines@[i as int]@);
        let ghost prev = non_comment_lines(views.take(i as int));
        if !is_comment(lines[i].as_str()) {
            assert(prev.push(lines@[i as int]@).drop_last() =~= prev);
            if any {
                joined.append("\n");
                proof {
                    reveal_strlit("\n");
                }
            }
            joined.append(lines[i].as_str());
            any = true;
        }
        i += 1;
    }
    assert(views.take(lines@.len() as int) =~= views);
    question_from_poll(joined.as_str())
}

} // verus!
