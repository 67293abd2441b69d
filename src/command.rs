use vstd::prelude::*;
use crate::sniffer::{is_user_error, is_user_warning, RunStatus, SnifferError};
use crate::text::push_char;

verus! {

/// The words of `s` from position `i` on, where `cur` is the word being read and `acc`
/// the words already read; words are separated by runs of spaces.
pub open spec fn words_from(s: Seq<char>, i: int, cur: Seq<char>, acc: Seq<Seq<char>>) -> Seq<
    Seq<char>,
>
    decreases s.len() - i,
{
    if i >= s.len() {
        if cur.len() > 0 {
            acc.push(cur)
        } else {
            acc
        }
    } else if s[i] == ' ' {
        words_from(
            s,
            i + 1,
            Seq::empty(),
            if cur.len() > 0 {
                acc.push(cur)
            } else {
                acc
            },
        )
    } else {
        words_from(s, i + 1, cur.push(s[i]), acc)
    }
}

/// The words of `s`: its maximal runs of characters other than a space.
pub open spec fn words(s: Seq<char>) -> Seq<Seq<char>> {
    words_from(s, 0, Seq::empty(), Seq::empty())
}

/// Splits a command into its words.
pub fn split_words(s: &str) -> (r: Vec<String>)
    ensures
        r@.map_values(|w: String| w@) == words(s@),
{
    let n = s.unicode_len();
    let mut acc: Vec<String> = Vec::new();
    let mut cur = String::new();
    let mut i: usize = 0;
    assert(acc@.map_values(|w: String| w@) =~= Seq::<Seq<char>>::empty());
    assert(cur@ =~= Seq::<char>::empty());
    while i < n
        invariant
            n == s@.len(),
            i <= n,
            words_from(s@, i as int, cur@, acc@.map_values(|w: String| w@)) == words(s@),
        decreases n - i,
    {
        let c = s.get_char(i);
        if c == ' ' {
            if cur.unicode_len() > 0 {
                assert(acc@.push(cur).map_values(|w: String| w@) =~= acc@.map_values(
                    |w: String| w@,
                ).push(cur@));
                acc.push(cur);
            }
            cur = String::new();
        } else {
            push_char(&mut cur, c);
        }
        i = i + 1;
    }
    if cur.unicode_len() > 0 {
        assert(acc@.push(cur).map_values(|w: String| w@) =~= acc@.map_values(|w: String| w@).push(
            cur@,
        ));
        acc.push(cur);
    }
    acc
}

/// Whether `s` begins with `prefix`.
pub open spec fn starts_with(s: Seq<char>, prefix: Seq<char>) -> bool {
    prefix.len() <= s.len() && s.subrange(0, prefix.len() as int) == prefix
}

fn has_prefix(s: &str, prefix: &str) -> (r: bool)
    ensures
        r == starts_with(s@, prefix@),
{
    let n = s.unicode_len();
    let m = prefix.unicode_len();
    if m > n {
        return false;
    }
    let mut i: usize = 0;
    while i < m
        invariant
            n == s@.len(),
            m == prefix@.len(),
            m <= n,
            i <= m,
            forall|j: int| 0 <= j < i ==> s@[j] == prefix@[j],
        decreases m - i,
    {
        if s.get_char(i) != prefix.get_char(i) {
            assert(s@.subrange(0, m as int)[i as int] != prefix@[i as int]);
            return false;
        }
        i = i + 1;
    }
    assert(s@.subrange(0, m as int) =~= prefix@);
    true
}

/// The first position of `w` among `ws`, if it is there.
pub open spec fn position_of(ws: Seq<Seq<char>>, w: Seq<char>) -> Option<int> {
    if exists|i: int| 0 <= i < ws.len() && ws[i] == w {
        Some(choose|i: int| 0 <= i < ws.len() && ws[i] == w && forall|j: int| 0 <= j < i ==> ws[j] != w)
    } else {
        None
    }
}

proof fn lemma_position_of(ws: Seq<Seq<char>>, w: Seq<char>, i: int)
    requires
        0 <= i < ws.len(),
        ws[i] == w,
        forall|j: int| 0 <= j < i ==> ws[j] != w,
    ensures
        position_of(ws, w) == Some(i),
{
    let k = choose|k: int| 0 <= k < ws.len() && ws[k] == w && forall|j: int| 0 <= j < k ==> ws[j] != w;
    assert(0 <= k < ws.len() && ws[k] == w && forall|j: int| 0 <= j < k ==> ws[j] != w);
    if k < i {
        assert(ws[k] != w);
    } else if k > i {
        assert(ws[i] != w);
    }
}

fn find_word(ws: &Vec<String>, w: &str) -> (r: Option<usize>)
    ensures
        r matches Some(i) ==> i < ws@.len() && position_of(ws@.map_values(|s: String| s@), w@) == Some(i as int),
        r is None ==> position_of(ws@.map_values(|s: String| s@), w@) is None,
{
    let target = w.to_string();
    let mut i: usize = 0;
    while i < ws.len()
        invariant
            i <= ws@.len(),
            target@ == w@,
            forall|j: int| 0 <= j < i ==> ws@[j]@ != w@,
        decreases ws@.len() - i,
    {
        if ws[i] == target {
            proof {
                lemma_position_of(ws@.map_values(|s: String| s@), w@, i as int);
            }
            return Some(i);
        }
        i = i + 1;
    }
    let ghost wv = ws@.map_values(|s: String| s@);
    assert(forall|j: int| 0 <= j < wv.len() ==> #[trigger] wv[j] == ws@[j]@);
    assert(!exists|j: int| 0 <= j < wv.len() && #[trigger] wv[j] == w@);
    None
}

/// The value of a run of decimal digits.
pub open spec fn digits_value(s: Seq<char>) -> nat
    decreases s.len(),
{
    if s.len() == 0 {
        0
    } else {
        digits_value(s.drop_last()) * 10 + (s.last() as nat - 48) as nat
    }
}

/// Whether every character of `s` is a decimal digit.
pub open spec fn all_digits(s: Seq<char>) -> bool {
    forall|i: int| 0 <= i < s.len() ==> '0' <= #[trigger] s[i] <= '9'
}

/// A word without its leading `+`, if it has one.
pub open spec fn unsigned_digits(w: Seq<char>) -> Seq<char> {
    if w.len() > 0 && w[0] == '+' {
        w.subrange(1, w.len() as int)
    } else {
        w
    }
}

/// The unsigned number that a word writes, as std's `u64` parser reads it: decimal
/// digits, after an optional `+`, with a value that fits in a `u64`.
pub open spec fn number_of(w: Seq<char>) -> Option<u64> {
    let digits = unsigned_digits(w);
    if digits.len() > 0 && all_digits(digits) && digits_value(digits) <= u64::MAX {
        Some(digits_value(digits) as u64)
    } else {
        None
    }
}

/// Reads the unsigned number that a word writes; see `number_of`.
pub fn parse_number(w: &str) -> (r: Option<u64>)
    ensures
        r == number_of(w@),
{
    let n = w.unicode_len();
    let start: usize = if n > 0 && w.get_char(0) == '+' {
        1
    } else {
        0
    };
    let ghost digits = w@.subrange(start as int, n as int);
    assert(digits == unsigned_digits(w@)) by {
        if start == 0 {
            assert(w@.subrange(0, n as int) =~= w@);
        }
    }
    if start == n {
        return None;
    }
    let mut value: u64 = 0;
    let mut i: usize = start;
    while i < n
        invariant
            n == w@.len(),
            start <= i <= n,
            digits == w@.subrange(start as int, n as int),
            digits == unsigned_digits(w@),
            all_digits(w@.subrange(start as int, i as int)),
            value == digits_value(w@.subrange(start as int, i as int)),
        decreases n - i,
    {
        let c = w.get_char(i);
        assert(w@.subrange(start as int, i + 1).drop_last() =~= w@.subrange(start as int, i as int));
        if c < '0' || c > '9' {
            assert(!all_digits(digits)) by {
                assert(digits[i - start] == c);
            }
            assert(number_of(w@) is None);
            return None;
        }
        let d = (c as u32 - 48) as u64;
        if value > (u64::MAX - d) / 10 {
            proof {
                let prefix = w@.subrange(start as int, i + 1);
                assert(prefix.last() == c);
                assert(digits_value(prefix) == value * 10 + d);
                assert(value * 10 + d > u64::MAX) by (nonlinear_arith)
                    requires
                        value > (u64::MAX - d) / 10,
                        d <= 9,
                ;
                if all_digits(digits) {
                    lemma_digits_value_prefix(digits, i - start + 1);
                    assert(digits.subrange(0, i - start + 1) =~= prefix);
                }
                assert(number_of(w@) is None);
            }
            return None;
        }
        value = value * 10 + d;
        i = i + 1;
    }
    Some(value)
}

/// A prefix of a run of digits is worth no more than the whole run.
proof fn lemma_digits_value_prefix(s: Seq<char>, k: int)
    requires
        0 <= k <= s.len(),
        all_digits(s),
    ensures
        digits_value(s.subrange(0, k)) <= digits_value(s),
    decreases s.len() - k,
{
    if k < s.len() {
        lemma_digits_value_prefix(s, k + 1);
        assert(s.subrange(0, k + 1).drop_last() =~= s.subrange(0, k));
        assert(s.subrange(0, k + 1).last() == s[k]);
    } else {
        assert(s.subrange(0, k) =~= s);
    }
}

/// What a `sniff` command asks for: the report file, and the report interval in seconds
/// if one is given.
#[derive(Debug, Clone, PartialEq, Eq)]
pub struct SniffRequest {
    pub file: String,
    pub interval: Option<u64>,
}

/// Whether the word after position `p` is missing or is itself an option.
pub open spec fn no_value_after(ws: Seq<Seq<char>>, p: int) -> bool {
    p == ws.len() - 1 || starts_with(ws[p + 1], "-"@)
}

/// Whether the interval after position `q` is missing, not a number, or zero.
pub open spec fn bad_interval(ws: Seq<Seq<char>>, q: int) -> bool {
    q == ws.len() - 1 || number_of(ws[q + 1]) is None || number_of(ws[q + 1]) == Some(0u64)
}

/// Reads a `sniff --file <name> [--interval <secs>]` command, given in lower case, for a
/// sniffer in state `status`.
pub fn check_sniffing(command: &str, status: &RunStatus) -> (r: Result<SniffRequest, SnifferError>)
    ensures
        ({
            let ws = words(command@);
            let pf = position_of(ws, "--file"@);
            let pi = position_of(ws, "--interval"@);
            if !starts_with(command@, "sniff"@) {
                is_user_warning(r, "Unknown command ..."@)
            } else if *status is Running || *status is Wait {
                is_user_warning(r, "Another scanning is already running ..."@)
            } else if *status is Error {
                is_user_error(r, status->Error_0@)
            } else if pf is None {
                is_user_warning(r, "The file argument is mandatory, please insert something ..."@)
            } else if no_value_after(ws, pf->Some_0) {
                is_user_warning(r, "Please insert a filename (not an argument, just a name) ..."@)
            } else if pi is Some && bad_interval(ws, pi->Some_0) {
                is_user_warning(r, "Please insert a positive number for the interval (sec) ..."@)
            } else {
                &&& r is Ok
                &&& r->Ok_0.file@ == ws[pf->Some_0 + 1]
                &&& r->Ok_0.interval == match pi {
                    Some(q) => number_of(ws[q + 1]),
                    None => None,
                }
            }
        }),
{
    if !has_prefix(command, "sniff") {
        return Err(SnifferError::UserWarning("Unknown command ...".to_string()));
    }
    match status {
        RunStatus::Running | RunStatus::Wait => {
            return Err(SnifferError::UserWarning("Another scanning is already running ...".to_string()));
        },
        RunStatus::Error(e) => {
            return Err(SnifferError::UserError(e.clone()));
        },
        RunStatus::Stop => {},
    }
    let ws = split_words(command);
    let pf = match find_word(&ws, "--file") {
        None => {
            return Err(
                SnifferError::UserWarning(
                    "The file argument is mandatory, please insert something ...".to_string(),
                ),
            );
        },
        Some(p) => p,
    };
    if pf == ws.len() - 1 || has_prefix(ws[pf + 1].as_str(), "-") {
        return Err(
            SnifferError::UserWarning(
                "Please insert a filename (not an argument, just a name) ...".to_string(),
            ),
        );
    }
    let interval = match find_word(&ws, "--interval") {
        None => None,
        Some(q) => {
            let value = if q == ws.len() - 1 {
                None
            } else {
                parse_number(ws[q + 1].as_str())
            };
            match value {
                Some(v) => if v == 0 {
                    None
                } else {
                    Some(v)
                },
                None => None,
            }
        },
    };
    if interval.is_none() && find_word(&ws, "--interval").is_some() {
        return Err(
            SnifferError::UserWarning(
                "Please insert a positive number for the interval (sec) ...".to_string(),
            ),
        );
    }
    Ok(SniffRequest { file: ws[pf + 1].clone(), interval })
}

} // verus!
