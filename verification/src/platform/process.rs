//! Recognizing the PUBG game process in a process listing.

use vstd::prelude::*;
use crate::text::{ascii_lower_seq, chars_of, chars_range, str_eq, string_from_chars, to_ascii_lowercase, trim, trim_seq};

verus! {

/// Whether a process name is the game's: `TslGame.exe` or `PUBG.exe`, ignoring ASCII case
/// and surrounding whitespace.
pub open spec fn is_pubg_name_spec(name: Seq<char>) -> bool {
    let n = ascii_lower_seq(trim_seq(name));
    n == "tslgame.exe"@ || n == "pubg.exe"@
}

/// The pieces of a text between separators, as `str::split` gives them.
pub open spec fn split_spec(s: Seq<char>, sep: char) -> Seq<Seq<char>>
    decreases s.len(),
{
    if s.len() == 0 {
        seq![Seq::empty()]
    } else {
        let r = split_spec(s.drop_last(), sep);
        if s.last() == sep {
            r.push(Seq::empty())
        } else {
            r.update(r.len() - 1, r.last().push(s.last()))
        }
    }
}

/// The text before the first occurrence of `c` (all of it when there is none).
pub open spec fn before_char(s: Seq<char>, c: char) -> Seq<char>
    decreases s.len(),
{
    if s.len() == 0 {
        Seq::empty()
    } else if s[0] == c {
        Seq::empty()
    } else {
        seq![s[0]] + before_char(s.drop_first(), c)
    }
}

pub open spec fn lead_quotes(s: Seq<char>) -> nat
    decreases s.len(),
{
    if s.len() > 0 && s[0] == '"' {
        1 + lead_quotes(s.drop_first())
    } else {
        0
    }
}

pub open spec fn trail_quotes(s: Seq<char>) -> nat
    decreases s.len(),
{
    if s.len() > 0 && s.last() == '"' {
        1 + trail_quotes(s.drop_last())
    } else {
        0
    }
}

/// `str::trim_matches('"')`.
pub open spec fn strip_quotes(s: Seq<char>) -> Seq<char> {
    let t = s.subrange(lead_quotes(s) as int, s.len() as int);
    t.subrange(0, t.len() - trail_quotes(t))
}

/// The process name of each non-blank line: its first comma-separated field, trimmed and
/// stripped of quotes.
pub open spec fn names_of_lines(lines: Seq<Seq<char>>) -> Seq<Seq<char>>
    decreases lines.len(),
{
    if lines.len() == 0 {
        Seq::empty()
    } else {
        let r = names_of_lines(lines.drop_last());
        let t = trim_seq(lines.last());
        if t.len() == 0 {
            r
        } else {
            r.push(strip_quotes(trim_seq(before_char(t, ','))))
        }
    }
}

/// Whether a process name is the game's (see `is_pubg_name_spec`).
pub fn is_pubg_process_name(name: &str) -> (res: bool)
    ensures
        res == is_pubg_name_spec(name@),
{
    let t = trim(name);
    let normalized = to_ascii_lowercase(t.as_str());
    str_eq(normalized.as_str(), "tslgame.exe") || str_eq(normalized.as_str(), "pubg.exe")
}

/// Whether any of the listed processes is the game.
pub fn is_pubg_running(process_names: &Vec<String>) -> (res: bool)
    ensures
        res == exists|i: int| 0 <= i < process_names@.len() && is_pubg_name_spec((#[trigger] process_names@[i])@),
{
    let mut i: usize = 0;
    while i < process_names.len()
        invariant
            i <= process_names@.len(),
            forall|j: int| 0 <= j < i ==> !is_pubg_name_spec((#[trigger] process_names@[j])@),
        decreases process_names.len() - i,
    {
        if is_pubg_process_name(process_names[i].as_str()) {
            return true;
        }
        i = i + 1;
    }
    false
}

proof fn lemma_before_char(s: Seq<char>, c: char, k: int)
    requires
        0 <= k <= s.len(),
        forall|j: int| 0 <= j < k ==> s[j] != c,
        k == s.len() || s[k] == c,
    ensures
        before_char(s, c) == s.take(k),
    decreases s.len(),
{
    if s.len() > 0 && k > 0 {
        assert forall|j: int| 0 <= j < k - 1 implies s.drop_first()[j] != c by {
            assert(s.drop_first()[j] == s[j + 1]);
        }
        if k < s.len() {
            assert(s.drop_first()[k - 1] == s[k]);
        }
        lemma_before_char(s.drop_first(), c, k - 1);
        assert(seq![s[0]] + s.drop_first().take(k - 1) =~= s.take(k));
    } else if k == 0 {
        assert(s.take(0) =~= Seq::<char>::empty());
    }
}

proof fn lemma_lead_quotes(s: Seq<char>, k: int)
    requires
        0 <= k <= s.len(),
        forall|i: int| 0 <= i < k ==> #[trigger] s[i] == '"',
        k == s.len() || s[k] != '"',
    ensures
        lead_quotes(s) == k,
    decreases s.len(),
{
    if k > 0 {
        let t = s.drop_first();
        assert forall|i: int| 0 <= i < k - 1 implies #[trigger] t[i] == '"' by {
            assert(t[i] == s[i + 1]);
        }
        if k - 1 < t.len() {
            assert(t[k - 1] == s[k]);
        }
        lemma_lead_quotes(t, k - 1);
    }
}

proof fn lemma_trail_quotes(s: Seq<char>, k: int)
    requires
        0 <= k <= s.len(),
        forall|i: int| s.len() - k <= i < s.len() ==> #[trigger] s[i] == '"',
        k == s.len() || s[s.len() - k - 1] != '"',
    ensures
        trail_quotes(s) == k,
    decreases s.len(),
{
    if k > 0 {
        let t = s.drop_last();
        assert forall|i: int| t.len() - (k - 1) <= i < t.len() implies #[trigger] t[i] == '"' by {
            assert(t[i] == s[i]);
        }
        if k - 1 < t.len() {
            assert(t[t.len() - (k - 1) - 1] == s[s.len() - k - 1]);
        }
        lemma_trail_quotes(t, k - 1);
    }
}

fn strip_quotes_exec(v: &Vec<char>) -> (res: Vec<char>)
    ensures
        res@ == strip_quotes(v@),
{
    let n = v.len();
    let mut a: usize = 0;
    while a < n && v[a] == '"'
        invariant
            a <= n == v@.len(),
            forall|i: int| 0 <= i < a ==> #[trigger] v@[i] == '"',
        decreases n - a,
    {
        a = a + 1;
    }
    proof {
        lemma_lead_quotes(v@, a as int);
    }
    let mut b: usize = n;
    while b > a && v[b - 1] == '"'
        invariant
            a <= b <= n == v@.len(),
            forall|i: int| b <= i < n ==> #[trigger] v@[i] == '"',
        decreases b - a,
    {
        b = b - 1;
    }
    proof {
        let t = v@.subrange(a as int, n as int);
        assert forall|i: int| t.len() - (n - b) <= i < t.len() implies #[trigger] t[i] == '"' by {
            assert(t[i] == v@[i + a]);
        }
        if b > a {
            assert(t[t.len() - (n - b) - 1] == v@[b - 1]);
        }
        lemma_trail_quotes(t, (n - b) as int);
        assert(t.subrange(0, t.len() - (n - b)) =~= v@.subrange(a as int, b as int));
    }
    chars_range(v, a, b)
}

/// The name of the process on one line of the listing, when the line is not blank.
fn name_of_line(line: &Vec<char>) -> (res: Option<String>)
    ensures
        match res {
            Some(n) => trim_seq(line@).len() > 0 && n@ == strip_quotes(trim_seq(before_char(trim_seq(line@), ','))),
            None => trim_seq(line@).len() == 0,
        },
{
    let line_text = string_from_chars(line);
    let t = trim(line_text.as_str());
    if t.as_str().is_empty() {
        return None;
    }
    let tv = chars_of(t.as_str());
    let mut k: usize = 0;
    while k < tv.len() && tv[k] != ','
        invariant
            k <= tv@.len(),
            forall|j: int| 0 <= j < k ==> tv@[j] != ',',
        decreases tv.len() - k,
    {
        k = k + 1;
    }
    proof {
        lemma_before_char(tv@, ',', k as int);
    }
    let first = chars_range(&tv, 0, k);
    let first_text = string_from_chars(&first);
    let field = trim(first_text.as_str());
    let fv = chars_of(field.as_str());
    let stripped = strip_quotes_exec(&fv);
    Some(string_from_chars(&stripped))
}

/// The process names of a `tasklist /FO CSV /NH` listing, one per non-blank line.
pub fn parse_tasklist_csv_names(output: &str) -> (res: Vec<String>)
    ensures
        res@.map_values(|s: String| s@) == names_of_lines(split_spec(output@, '\n')),
{
    let chars = chars_of(output);
    let mut res: Vec<String> = Vec::new();
    let mut line: Vec<char> = Vec::new();
    let mut i: usize = 0;
    proof {
        assert(split_spec(chars@.take(0), '\n') =~= seq![Seq::<char>::empty()]);
        assert(res@.map_values(|s: String| s@) =~= Seq::<Seq<char>>::empty());
    }
    while i < chars.len()
        invariant
            i <= chars@.len(),
            chars@ == output@,
            split_spec(chars@.take(i as int), '\n').len() > 0,
            split_spec(chars@.take(i as int), '\n').last() == line@,
            res@.map_values(|s: String| s@) == names_of_lines(split_spec(chars@.take(i as int), '\n').drop_last()),
        decreases chars.len() - i,
    {
        let c = chars[i];
        let ghost before = split_spec(chars@.take(i as int), '\n');
        proof {
            assert(chars@.take(i + 1).drop_last() =~= chars@.take(i as int));
            assert(chars@.take(i + 1).last() == c);
        }
        if c == '\n' {
            let name = name_of_line(&line);
            let ghost old_res = res@;
            match name {
                Some(n) => {
                    res.push(n);
                    assert(res@.map_values(|s: String| s@) =~= old_res.map_values(|s: String| s@).push(n@));
                },
                None => {},
            }
            line = Vec::new();
            proof {
                let after = split_spec(chars@.take(i + 1), '\n');
                assert(after == before.push(Seq::empty()));
                assert(after.drop_last() =~= before);
                assert(before =~= before.drop_last().push(before.last()));
                assert(line@ =~= Seq::<char>::empty());
            }
        } else {
            line.push(c);
            proof {
                let after = split_spec(chars@.take(i + 1), '\n');
                assert(after.drop_last() =~= before.drop_last());
            }
        }
        i = i + 1;
    }
    proof {
        assert(chars@.take(chars@.len() as int) =~= chars@);
    }
    let ghost all = split_spec(output@, '\n');
    let ghost old_res = res@;
    let name = name_of_line(&line);
    match name {
        Some(n) => {
            res.push(n);
            assert(res@.map_values(|s: String| s@) =~= old_res.map_values(|s: String| s@).push(n@));
        },
        None => {},
    }
    proof {
        assert(all =~= all.drop_last().push(all.last()));
    }
    res
}

} // verus!
