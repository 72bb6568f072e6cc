//! Reading the channels of the store's event notifications.
use vstd::prelude::*;
use vstd::string::*;

use crate::decode::RespValue;
use crate::script::texts_view;
use crate::text::{utf8_of, utf8_text};

verus! {

/// The pieces of `s` between the occurrences of `sep`, in order: one more
/// piece than there are separators.
pub open spec fn split_on(s: Seq<char>, sep: char) -> Seq<Seq<char>>
    decreases s.len(),
{
    if s.len() == 0 {
        seq![Seq::empty()]
    } else {
        let p = split_on(s.drop_last(), sep);
        if s.last() == sep {
            p.push(Seq::empty())
        } else {
            p.update(p.len() - 1, p.last().push(s.last()))
        }
    }
}

/// Splitting gives one piece more than there are separators, no piece
/// holds the separator, and the pieces joined by the separator give back
/// the text.
pub proof fn lemma_split_on(s: Seq<char>, sep: char)
    ensures
        split_on(s, sep).len() == s.filter(|c: char| c == sep).len() + 1,
        forall|i: int|
            0 <= i < split_on(s, sep).len() ==> !(#[trigger] split_on(s, sep)[i]).contains(sep),
        join_on(split_on(s, sep), sep) == s,
    decreases s.len(),
{
    reveal(Seq::filter);
    if s.len() > 0 {
        let init = s.drop_last();
        lemma_split_on(init, sep);
        let p = split_on(init, sep);
        let c = s.last();
        assert(s.filter(|c: char| c == sep) == if c == sep {
            init.filter(|c: char| c == sep).push(c)
        } else {
            init.filter(|c: char| c == sep)
        });
        if c == sep {
            let q = p.push(Seq::empty());
            assert(q.drop_last() == p);
            assert(join_on(q, sep) =~= join_on(p, sep).push(sep) + Seq::empty());
            assert(join_on(q, sep) =~= s);
            assert forall|i: int| 0 <= i < q.len() implies !(#[trigger] q[i]).contains(sep) by {
                if i < p.len() {
                    assert(q[i] == p[i]);
                }
            }
        } else {
            let last = p.last().push(c);
            let q = p.update(p.len() - 1, last);
            lemma_join_on_update_last(p, sep, c);
            assert forall|i: int| 0 <= i < q.len() implies !(#[trigger] q[i]).contains(sep) by {
                if i < p.len() - 1 {
                    assert(q[i] == p[i]);
                } else {
                    assert(q[i] == last);
                    assert(!p[p.len() - 1].contains(sep));
                    if last.contains(sep) {
                        let k = choose|k: int| 0 <= k < last.len() && last[k] == sep;
                        assert(k < last.len() - 1);
                        assert(p[p.len() - 1][k] == sep);
                    }
                }
            }
        }
    }
}

/// Pieces joined by a separator.
pub open spec fn join_on(pieces: Seq<Seq<char>>, sep: char) -> Seq<char>
    decreases pieces.len(),
{
    if pieces.len() == 0 {
        Seq::empty()
    } else if pieces.len() == 1 {
        pieces[0]
    } else {
        join_on(pieces.drop_last(), sep).push(sep) + pieces.last()
    }
}

/// Extending the last piece extends the joined text.
proof fn lemma_join_on_update_last(p: Seq<Seq<char>>, sep: char, c: char)
    requires
        p.len() >= 1,
    ensures
        join_on(p.update(p.len() - 1, p.last().push(c)), sep) == join_on(p, sep).push(c),
{
    let q = p.update(p.len() - 1, p.last().push(c));
    if p.len() == 1 {
        assert(join_on(q, sep) =~= join_on(p, sep).push(c));
    } else {
        assert(q.drop_last() =~= p.drop_last());
        assert(join_on(q, sep) =~= join_on(p, sep).push(c));
    }
}

/// The pieces of `s` between the occurrences of `sep`.
pub fn split_text(s: &str, sep: char) -> (r: Vec<String>)
    ensures
        texts_view(r@) == split_on(s@, sep),
{
    let n = s.unicode_len();
    let mut pieces: Vec<String> = Vec::new();
    let mut start: usize = 0;
    let mut i: usize = 0;
    assert(s@.take(0) =~= Seq::<char>::empty());
    assert(s@.subrange(0, 0) =~= Seq::<char>::empty());
    assert(texts_view(pieces@).push(s@.subrange(0, 0)) =~= seq![Seq::<char>::empty()]);
    while i < n
        invariant
            n == s@.len(),
            start <= i <= n,
            split_on(s@.take(i as int), sep) == texts_view(pieces@).push(
                s@.subrange(start as int, i as int),
            ),
        decreases n - i,
    {
        let c = s.get_char(i);
        assert(s@.take(i + 1).drop_last() =~= s@.take(i as int));
        assert(s@.take(i + 1).last() == c);
        if c == sep {
            let piece = s.substring_char(start, i).to_owned();
            let ghost before = texts_view(pieces@);
            pieces.push(piece);
            assert(texts_view(pieces@) =~= before.push(s@.subrange(start as int, i as int)));
            start = i + 1;
            assert(s@.subrange(start as int, i + 1) =~= Seq::<char>::empty());
        } else {
            assert(s@.subrange(start as int, i + 1) =~= s@.subrange(start as int, i as int).push(c));
            assert(split_on(s@.take(i + 1), sep) =~= texts_view(pieces@).push(
                s@.subrange(start as int, i + 1),
            ));
        }
        i = i + 1;
    }
    let last = s.substring_char(start, n).to_owned();
    let ghost before = texts_view(pieces@);
    pieces.push(last);
    assert(texts_view(pieces@) =~= before.push(s@.subrange(start as int, n as int)));
    assert(s@.take(n as int) =~= s@);
    pieces
}

/// The channel text of a notification: its second part, when that is a
/// string of valid UTF-8.
pub open spec fn channel_text(data: Seq<RespValue>) -> Option<Seq<char>> {
    if data.len() > 1 {
        match data[1] {
            RespValue::BulkString(b) => utf8_of(b@),
            _ => None,
        }
    } else {
        None
    }
}

/// The namespace, action and signal of a notification's channel: the
/// second, third and fourth pieces of the channel text split on `:`, when it
/// has at least four.
pub open spec fn channel_info(data: Seq<RespValue>) -> Option<(Seq<char>, Seq<char>, Seq<char>)> {
    match channel_text(data) {
        Some(text) => {
            let parts = split_on(text, ':');
            if parts.len() >= 4 {
                Some((parts[1], parts[2], parts[3]))
            } else {
                None
            }
        },
        None => None,
    }
}

/// The namespace, action and signal of the channel of a notification whose
/// parts are `data`.
pub fn parse_channel_info(data: &Vec<RespValue>) -> (r: Option<(String, String, String)>)
    ensures
        match r {
            Some((ns, action, signal)) => channel_info(data@) == Some((ns@, action@, signal@)),
            None => channel_info(data@).is_none(),
        },
{
    if data.len() <= 1 {
        return None;
    }
    let text = match &data[1] {
        RespValue::BulkString(bytes) => match utf8_text(bytes.as_slice()) {
            Some(t) => t,
            None => {
                return None;
            },
        },
        _ => {
            return None;
        },
    };
    let parts = split_text(text.as_str(), ':');
    if parts.len() >= 4 {
        assert(texts_view(parts@)[1] == parts@[1]@);
        assert(texts_view(parts@)[2] == parts@[2]@);
        assert(texts_view(parts@)[3] == parts@[3]@);
        Some((parts[1].clone(), parts[2].clone(), parts[3].clone()))
    } else {
        None
    }
}

/// The queue to wake for a notification: the namespace of its channel, when
/// the channel's signal is `available`.
pub fn available_queue(data: &Vec<RespValue>) -> (r: Option<String>)
    ensures
        match r {
            Some(ns) => channel_info(data@) matches Some((n, _, signal)) && n == ns@ && signal
                == "available"@,
            None => !(channel_info(data@) matches Some((_, _, signal)) && signal == "available"@),
        },
{
    match parse_channel_info(data) {
        Some((ns, _, signal)) => {
            let available = "available".to_owned();
            if signal == available {
                Some(ns)
            } else {
                None
            }
        },
        None => None,
    }
}

} // verus!
