//! Listing the queues.
use vstd::prelude::*;
use vstd::string::*;

use crate::script::{texts_view, ArgView, Script, ScriptArg, ScriptCall};

verus! {

/// `s` with every occurrence of `pat`, taken from left to right without
/// overlap, replaced by `rep`.
pub open spec fn replace_all(s: Seq<char>, pat: Seq<char>, rep: Seq<char>) -> Seq<char>
    decreases s.len(),
{
    if pat.len() == 0 || s.len() < pat.len() {
        s
    } else if s.take(pat.len() as int) == pat {
        rep + replace_all(s.skip(pat.len() as int), pat, rep)
    } else {
        seq![s[0]] + replace_all(s.skip(1), pat, rep)
    }
}

/// Whether `pat` occurs in `s` at character position `i`.
fn occurs_at(s: &str, pat: &str, i: usize) -> (r: bool)
    requires
        i + pat@.len() <= s@.len(),
    ensures
        r == (s@.subrange(i as int, i + pat@.len()) == pat@),
{
    let m = pat.unicode_len();
    let n = s.unicode_len();
    let mut j: usize = 0;
    while j < m
        invariant
            m == pat@.len(),
            n == s@.len(),
            i + m <= n,
            j <= m,
            forall|k: int| 0 <= k < j ==> s@[i + k] == pat@[k],
        decreases m - j,
    {
        if s.get_char(i + j) != pat.get_char(j) {
            assert(s@.subrange(i as int, i + m)[j as int] != pat@[j as int]);
            return false;
        }
        j = j + 1;
    }
    assert(s@.subrange(i as int, i + m) =~= pat@);
    true
}

/// `s` with every occurrence of `pat`, taken from left to right without
/// overlap, replaced by `rep`.
pub fn replace_text(s: &str, pat: &str, rep: &str) -> (r: String)
    requires
        pat@.len() > 0,
    ensures
        r@ == replace_all(s@, pat@, rep@),
{
    let n = s.unicode_len();
    let m = pat.unicode_len();
    let mut out = String::new();
    let mut i: usize = 0;
    assert(s@.skip(0) =~= s@);
    assert(out@ + replace_all(s@, pat@, rep@) =~= replace_all(s@, pat@, rep@));
    while i < n
        invariant
            n == s@.len(),
            m == pat@.len(),
            m > 0,
            i <= n,
            out@ + replace_all(s@.skip(i as int), pat@, rep@) == replace_all(s@, pat@, rep@),
        decreases n - i,
    {
        let ghost rest = s@.skip(i as int);
        let ghost before = out@;
        if n - i < m {
            out.append(s.substring_char(i, n));
            assert(rest =~= s@.subrange(i as int, n as int));
            assert(s@.skip(n as int) =~= Seq::<char>::empty());
            assert(replace_all(s@.skip(n as int), pat@, rep@) =~= Seq::<char>::empty());
            assert(out@ + replace_all(s@.skip(n as int), pat@, rep@) =~= before + replace_all(
                rest,
                pat@,
                rep@,
            ));
            i = n;
        } else if occurs_at(s, pat, i) {
            out.append(rep);
            assert(rest.take(m as int) =~= s@.subrange(i as int, i + m));
            assert(rest.skip(m as int) =~= s@.skip(i + m));
            assert(out@ + replace_all(s@.skip(i + m), pat@, rep@) =~= before + replace_all(
                rest,
                pat@,
                rep@,
            ));
            i = i + m;
        } else {
            out.append(s.substring_char(i, i + 1));
            assert(rest.take(m as int) =~= s@.subrange(i as int, i + m));
            assert(rest.skip(1) =~= s@.skip(i + 1));
            assert(s@.subrange(i as int, i + 1) =~= seq![rest[0]]);
            assert(out@ + replace_all(s@.skip(i + 1), pat@, rep@) =~= before + replace_all(
                rest,
                pat@,
                rep@,
            ));
            i = i + 1;
        }
    }
    assert(s@.skip(n as int) =~= Seq::<char>::empty());
    assert(replace_all(s@.skip(n as int), pat@, rep@) =~= Seq::<char>::empty());
    assert(out@ =~= replace_all(s@, pat@, rep@));
    out
}

/// The key of the registry of the queues' worker sets, which the queue
/// listing reads in full.
pub fn queue_registry_key() -> (k: String)
    ensures
        k@ == "core:apalis:queues:list"@,
{
    "core:apalis:queues:list".to_owned()
}

/// The queue names behind the names of the registry of workers' sets: each
/// name with `:workers` removed.
pub fn queue_names(names: &Vec<String>) -> (r: Vec<String>)
    ensures
        r@.len() == names@.len(),
        forall|i: int|
            0 <= i < names@.len() ==> (#[trigger] r@[i])@ == replace_all(
                names@[i]@,
                ":workers"@,
                Seq::empty(),
            ),
{
    proof {
        reveal_strlit(":workers");
    }
    let mut r: Vec<String> = Vec::new();
    let mut i: usize = 0;
    while i < names.len()
        invariant
            i <= names@.len(),
            r@.len() == i,
            ":workers"@.len() == 8,
            forall|k: int|
                0 <= k < i ==> (#[trigger] r@[k])@ == replace_all(
                    names@[k]@,
                    ":workers"@,
                    Seq::empty(),
                ),
        decreases names@.len() - i,
    {
        let empty = String::new();
        r.push(replace_text(names[i].as_str(), ":workers", empty.as_str()));
        i = i + 1;
    }
    r
}

/// The invocation that gathers at time `now` the statistics of the queues
/// named `queues`.
pub fn overview_by_queue_call(queues: &Vec<String>, now: u64) -> (c: ScriptCall)
    ensures
        c.script == Script::OverviewByQueue,
        c.keys_view() == texts_view(queues@),
        c.args_view() == seq![ArgView::Int(now)],
{
    let mut c = ScriptCall::new(Script::OverviewByQueue);
    c.arg(ScriptArg::Int(now));
    let mut i: usize = 0;
    while i < queues.len()
        invariant
            i <= queues@.len(),
            c.script == Script::OverviewByQueue,
            c.keys_view() == texts_view(queues@.take(i as int)),
            c.args_view() == seq![ArgView::Int(now)],
        decreases queues@.len() - i,
    {
        c.key(queues[i].clone());
        assert(texts_view(queues@.take(i + 1)) =~= texts_view(queues@.take(i as int)).push(
            queues@[i as int]@,
        ));
        i = i + 1;
    }
    assert(queues@.take(i as int) =~= queues@);
    c
}

} // verus!
