use vstd::prelude::*;

verus! {

/// The pieces of `s` between commas, in order; a string without commas is
/// one piece, and the empty string is one empty piece.
pub open spec fn split_commas(s: Seq<char>) -> Seq<Seq<char>>
    decreases s.len(),
{
    if s.len() == 0 {
        seq![Seq::empty()]
    } else {
        let prev = split_commas(s.drop_last());
        if s.last() == ',' {
            prev.push(Seq::empty())
        } else {
            prev.update(prev.len() - 1, prev.last().push(s.last()))
        }
    }
}

pub open spec fn string_views(v: Seq<String>) -> Seq<Seq<char>> {
    v.map_values(|e: String| e@)
}

/// Whether two strings hold the same characters.
pub fn str_eq(a: &str, b: &str) -> (r: bool)
    ensures
        r == (a@ == b@),
{
    let n = a.unicode_len();
    if n != b.unicode_len() {
        return false;
    }
    let mut i: usize = 0;
    while i < n
        invariant
            n == a@.len() == b@.len(),
            i <= n,
            forall|j: int| 0 <= j < i ==> a@[j] == b@[j],
        decreases n - i,
    {
        if a.get_char(i) != b.get_char(i) {
            return false;
        }
        i = i + 1;
    }
    assert(a@ =~= b@);
    true
}

/// Whether one of `entries` reads `name`.
pub fn contains_entry(entries: &Vec<String>, name: &str) -> (r: bool)
    ensures
        r == string_views(entries@).contains(name@),
{
    let ghost views = string_views(entries@);
    let mut i: usize = 0;
    while i < entries.len()
        invariant
            i <= entries.len(),
            views == string_views(entries@),
            forall|j: int| 0 <= j < i ==> views[j] != name@,
        decreases entries.len() - i,
    {
        if str_eq(entries[i].as_str(), name) {
            assert(views[i as int] == name@);
            return true;
        }
        i = i + 1;
    }
    false
}

/// Splits `s` at every comma.
pub fn split_on_commas(s: &str) -> (r: Vec<String>)
    ensures
        string_views(r@) == split_commas(s@),
{
    let n = s.unicode_len();
    let mut parts: Vec<String> = Vec::new();
    let mut start: usize = 0;
    let mut i: usize = 0;
    proof {
        assert(s@.take(0) =~= Seq::<char>::empty());
    }
    while i < n
        invariant
            n == s@.len(),
            start <= i <= n,
            split_commas(s@.take(i as int)).len() >= 1,
            string_views(parts@) == split_commas(s@.take(i as int)).drop_last(),
            split_commas(s@.take(i as int)).last() == s@.subrange(start as int, i as int),
        decreases n - i,
    {
        let c = s.get_char(i);
        let ghost prev = split_commas(s@.take(i as int));
        proof {
            assert(s@.take(i + 1).drop_last() =~= s@.take(i as int));
            assert(s@.take(i + 1).last() == c);
        }
        if c == ',' {
            let piece = String::from_str(s.substring_char(start, i));
            let ghost before = parts@;
            parts.push(piece);
            start = i + 1;
            proof {
                assert(string_views(parts@) =~= string_views(before).push(piece@));
                assert(prev.drop_last().push(prev.last()) =~= prev);
                assert(string_views(parts@) =~= prev);
                assert(split_commas(s@.take(i + 1)) == prev.push(Seq::empty()));
                assert(split_commas(s@.take(i + 1)).drop_last() =~= prev);
                assert(s@.subrange(start as int, i + 1) =~= Seq::<char>::empty());
            }
        } else {
            proof {
                let next = split_commas(s@.take(i + 1));
                assert(next == prev.update(prev.len() - 1, prev.last().push(c)));
                assert(next.drop_last() =~= prev.drop_last());
                assert(s@.subrange(start as int, i + 1) =~= s@.subrange(start as int, i as int).push(c));
            }
        }
        i = i + 1;
    }
    let last = String::from_str(s.substring_char(start, n));
    parts.push(last);
    proof {
        assert(s@.take(n as int) =~= s@);
        let all = split_commas(s@);
        assert(string_views(parts@) =~= all.drop_last().push(all.last()));
        assert(all.drop_last().push(all.last()) =~= all);
    }
    parts
}

/// Whether `s` begins with `prefix`.
pub open spec fn has_prefix(s: Seq<char>, prefix: Seq<char>) -> bool {
    prefix.len() <= s.len() && s.subrange(0, prefix.len() as int) == prefix
}

pub fn starts_with(s: &str, prefix: &str) -> (r: bool)
    ensures
        r == has_prefix(s@, prefix@),
{
    let n = prefix.unicode_len();
    if n > s.unicode_len() {
        return false;
    }
    let mut i: usize = 0;
    while i < n
        invariant
            n == prefix@.len() <= s@.len(),
            i <= n,
            forall|j: int| 0 <= j < i ==> s@[j] == prefix@[j],
        decreases n - i,
    {
        if s.get_char(i) != prefix.get_char(i) {
            assert(s@.subrange(0, n as int)[i as int] != prefix@[i as int]);
            return false;
        }
        i = i + 1;
    }
    assert(s@.subrange(0, n as int) =~= prefix@);
    true
}

/// Whether `s` ends with `suffix`.
pub open spec fn has_suffix(s: Seq<char>, suffix: Seq<char>) -> bool {
    suffix.len() <= s.len() && s.subrange(s.len() - suffix.len(), s.len() as int) == suffix
}

/// `s` without `suffix`, where it ends with it.
pub fn strip_suffix(s: &str, suffix: &str) -> (r: Option<String>)
    ensures
        r is Some <==> has_suffix(s@, suffix@),
        r matches Some(t) ==> t@ == s@.subrange(0, s@.len() - suffix@.len()),
{
    let n = s.unicode_len();
    let k = suffix.unicode_len();
    if k > n {
        return None;
    }
    let tail = s.substring_char(n - k, n);
    if str_eq(tail, suffix) {
        Some(String::from_str(s.substring_char(0, n - k)))
    } else {
        None
    }
}

/// The decimal digit character for `d`.
pub open spec fn digit_char(d: nat) -> char {
    if d == 0 {
        '0'
    } else if d == 1 {
        '1'
    } else if d == 2 {
        '2'
    } else if d == 3 {
        '3'
    } else if d == 4 {
        '4'
    } else if d == 5 {
        '5'
    } else if d == 6 {
        '6'
    } else if d == 7 {
        '7'
    } else if d == 8 {
        '8'
    } else {
        '9'
    }
}

/// The decimal notation of `n`, without leading zeros.
pub open spec fn decimal_spec(n: nat) -> Seq<char>
    decreases n,
{
    if n < 10 {
        seq![digit_char(n)]
    } else {
        decimal_spec(n / 10).push(digit_char(n % 10))
    }
}

fn digit_str(d: u64) -> (r: &'static str)
    requires
        d < 10,
    ensures
        r@ == seq![digit_char(d as nat)],
{
    proof {
        reveal_strlit("0");
        reveal_strlit("1");
        reveal_strlit("2");
        reveal_strlit("3");
        reveal_strlit("4");
        reveal_strlit("5");
        reveal_strlit("6");
        reveal_strlit("7");
        reveal_strlit("8");
        reveal_strlit("9");
    }
    let r = match d {
        0 => "0",
        1 => "1",
        2 => "2",
        3 => "3",
        4 => "4",
        5 => "5",
        6 => "6",
        7 => "7",
        8 => "8",
        _ => "9",
    };
    assert(r@ =~= seq![digit_char(d as nat)]);
    r
}

/// The decimal notation of `n`.
pub fn decimal(n: u64) -> (r: String)
    ensures
        r@ == decimal_spec(n as nat),
    decreases n,
{
    if n < 10 {
        String::from_str(digit_str(n))
    } else {
        let mut s = decimal(n / 10);
        s.append(digit_str(n % 10));
        s
    }
}

} // verus!
