//! Parsing the explicit class list: comma-separated fields, each trimmed of
//! surrounding whitespace.

use vstd::prelude::*;
use vstd::string::StringExecFns;
use vstd::string::StrSliceExecFns;

verus! {

/// An ASCII whitespace character, as the class parser trims them.
pub open spec fn is_space_char(c: char) -> bool {
    c == ' ' || c == '\t' || c == '\n' || c == '\r'
}

/// `s` without its leading whitespace.
pub open spec fn trimmed_start(s: Seq<char>) -> Seq<char>
    decreases s.len(),
{
    if s.len() > 0 && is_space_char(s[0]) {
        trimmed_start(s.drop_first())
    } else {
        s
    }
}

/// `s` without its trailing whitespace.
pub open spec fn trimmed_end(s: Seq<char>) -> Seq<char>
    decreases s.len(),
{
    if s.len() > 0 && is_space_char(s.last()) {
        trimmed_end(s.drop_last())
    } else {
        s
    }
}

/// `s` without leading or trailing whitespace.
pub open spec fn trimmed(s: Seq<char>) -> Seq<char> {
    trimmed_end(trimmed_start(s))
}

/// The fields of `s` from position `i` on, given the part `cur` of the
/// current field read so far and the fields `acc` already complete.
pub open spec fn fields_from(s: Seq<char>, i: int, cur: Seq<char>, acc: Seq<Seq<char>>) -> Seq<
    Seq<char>,
>
    decreases s.len() - i,
{
    if i < 0 || i >= s.len() {
        acc.push(cur)
    } else if s[i] == ',' {
        fields_from(s, i + 1, Seq::empty(), acc.push(cur))
    } else {
        fields_from(s, i + 1, cur.push(s[i]), acc)
    }
}

/// The comma-separated fields of `s`, in order. There is always one field
/// more than there are commas; an empty `s` gives one empty field.
pub open spec fn comma_fields(s: Seq<char>) -> Seq<Seq<char>> {
    fields_from(s, 0, Seq::empty(), Seq::empty())
}

/// Each field trimmed.
pub open spec fn trim_all(fields: Seq<Seq<char>>) -> Seq<Seq<char>> {
    fields.map_values(|f: Seq<char>| trimmed(f))
}

/// The class list an explicit class string denotes: its comma-separated
/// fields, trimmed, in the given order.
pub open spec fn parsed_classes(s: Seq<char>) -> Seq<Seq<char>> {
    trim_all(comma_fields(s))
}

fn is_space(c: char) -> (b: bool)
    ensures
        b == is_space_char(c),
{
    c == ' ' || c == '\t' || c == '\n' || c == '\r'
}

proof fn lemma_trimmed_start_skip(s: Seq<char>, k: int)
    requires
        0 <= k <= s.len(),
        forall|i: int| 0 <= i < k ==> is_space_char(s[i]),
        k == s.len() || !is_space_char(s[k]),
    ensures
        trimmed_start(s) == s.skip(k),
    decreases k,
{
    if k == 0 {
        assert(s.skip(0) =~= s);
    } else {
        let t = s.drop_first();
        lemma_trimmed_start_skip(t, k - 1);
        assert(t.skip(k - 1) =~= s.skip(k));
    }
}

proof fn lemma_trimmed_end_take(s: Seq<char>, k: int)
    requires
        0 <= k <= s.len(),
        forall|i: int| k <= i < s.len() ==> is_space_char(s[i]),
        k == 0 || !is_space_char(s[k - 1]),
    ensures
        trimmed_end(s) == s.take(k),
    decreases s.len() - k,
{
    if k == s.len() {
        assert(s.take(k) =~= s);
    } else {
        let t = s.drop_last();
        lemma_trimmed_end_take(t, k);
        assert(t.take(k) =~= s.take(k));
    }
}

/// `s` with leading and trailing whitespace removed.
pub fn trim_str(s: &str) -> (r: String)
    ensures
        r@ == trimmed(s@),
{
    let n = s.unicode_len();
    let mut start: usize = 0;
    while start < n && is_space(s.get_char(start))
        invariant
            n == s@.len(),
            start <= n,
            forall|i: int| 0 <= i < start ==> is_space_char(s@[i]),
        decreases n - start,
    {
        start = start + 1;
    }
    let mut end: usize = n;
    while end > start && is_space(s.get_char(end - 1))
        invariant
            start <= end <= n,
            n == s@.len(),
            forall|i: int| end <= i < n ==> is_space_char(s@[i]),
        decreases end,
    {
        end = end - 1;
    }
    let piece = s.substring_char(start, end);
    proof {
        lemma_trimmed_start_skip(s@, start as int);
        let t = s@.skip(start as int);
        lemma_trimmed_end_take(t, end - start);
        assert(t.take(end - start) =~= s@.subrange(start as int, end as int));
    }
    piece.to_owned()
}

/// The comma-separated fields of `s`, each trimmed: the class list an
/// explicit class string denotes.
pub fn parse_classes(s: &str) -> (r: Vec<String>)
    ensures
        r.deep_view() == parsed_classes(s@),
{
    let n = s.unicode_len();
    let mut r: Vec<String> = Vec::new();
    let ghost mut acc: Seq<Seq<char>> = Seq::empty();
    let mut field_start: usize = 0;
    let mut i: usize = 0;
    proof {
        assert(s@.subrange(0, 0) =~= Seq::<char>::empty());
    }
    while i < n
        invariant
            n == s@.len(),
            field_start <= i <= n,
            fields_from(s@, i as int, s@.subrange(field_start as int, i as int), acc)
                == comma_fields(s@),
            r.deep_view() == trim_all(acc),
        decreases n - i,
    {
        let c = s.get_char(i);
        if c == ',' {
            let field = s.substring_char(field_start, i);
            let t = trim_str(field);
            let ghost prev = r.deep_view();
            r.push(t);
            proof {
                let cur = s@.subrange(field_start as int, i as int);
                assert(r.deep_view() =~= prev.push(t@));
                assert(trim_all(acc.push(cur)) =~= trim_all(acc).push(trimmed(cur)));
                acc = acc.push(cur);
            }
            field_start = i + 1;
            i = i + 1;
            proof {
                assert(s@.subrange(field_start as int, i as int) =~= Seq::<char>::empty());
            }
        } else {
            i = i + 1;
            proof {
                assert(s@.subrange(field_start as int, i as int) =~= s@.subrange(
                    field_start as int,
                    i - 1,
                ).push(s@[i - 1]));
            }
        }
    }
    let field = s.substring_char(field_start, n);
    let t = trim_str(field);
    let ghost prev = r.deep_view();
    r.push(t);
    proof {
        let cur = s@.subrange(field_start as int, n as int);
        assert(r.deep_view() =~= prev.push(t@));
        assert(trim_all(acc.push(cur)) =~= trim_all(acc).push(trimmed(cur)));
    }
    r
}

/// A copy of a list of strings, same strings in the same order.
pub fn clone_strings(v: &Vec<String>) -> (r: Vec<String>)
    ensures
        r.deep_view() == v.deep_view(),
{
    let r = v.clone();
    proof {
        assert(r.deep_view() =~= v.deep_view());
    }
    r
}

} // verus!
