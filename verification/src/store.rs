//! The store's pure half: decoding queried rows back into messages and the
//! retention cutoff. The SQL statements themselves run outside the library;
//! rows come in as the JSON text they were written with, undecodable rows
//! are skipped, and a bounded query is reversed so the caller sees ascending
//! time.

use crate::messages::{spec_alarm_of_text, spec_data_of_text, AlarmMessage, DataMessage};
use crate::toml::strs_view;
use vstd::prelude::*;

verus! {

/// The retention window: one hour, in nanoseconds.
pub const RETENTION_WINDOW_NS: i64 = 3600000000000;

/// The sweep bound: rows with a time below it leave the store.
pub fn retention_cutoff(now_ns: i64) -> (r: i64)
    requires
        now_ns as int - RETENTION_WINDOW_NS as int >= i64::MIN as int,
    ensures
        r as int == now_ns as int - RETENTION_WINDOW_NS as int,
{
    now_ns - RETENTION_WINDOW_NS
}

/// View of a decoded alarm list.
pub open spec fn alarms_view(v: Seq<AlarmMessage>, i: int) -> Seq<crate::messages::AlarmMessageV>
    decreases v.len() - i,
{
    if i < 0 || i >= v.len() {
        Seq::empty()
    } else {
        seq![v[i]@] + alarms_view(v, i + 1)
    }
}

pub proof fn lemma_alarms_view(v: Seq<AlarmMessage>, i: int)
    requires
        0 <= i <= v.len(),
    ensures
        alarms_view(v, i).len() == v.len() - i,
        forall|j: int| i <= j < v.len() ==> alarms_view(v, i)[j - i] == (#[trigger] v[j])@,
    decreases v.len() - i,
{
    if i < v.len() {
        lemma_alarms_view(v, i + 1);
    }
}

proof fn lemma_alarms_view_push(v: Seq<AlarmMessage>, x: AlarmMessage, i: int)
    requires
        0 <= i <= v.len(),
    ensures
        alarms_view(v.push(x), i) == alarms_view(v, i).push(x@),
    decreases v.len() - i,
{
    let a = v.push(x);
    if i < v.len() {
        lemma_alarms_view_push(v, x, i + 1);
        assert(a[i] == v[i]);
        assert(alarms_view(a, i) =~= alarms_view(v, i).push(x@));
    } else {
        assert(a[i] == x);
        assert(alarms_view(a, i + 1) =~= Seq::<crate::messages::AlarmMessageV>::empty());
        assert(alarms_view(a, i) =~= alarms_view(v, i).push(x@));
    }
}

/// View of a decoded data list.
pub open spec fn data_msgs_view(v: Seq<DataMessage>, i: int) -> Seq<crate::messages::DataMessageV>
    decreases v.len() - i,
{
    if i < 0 || i >= v.len() {
        Seq::empty()
    } else {
        seq![v[i]@] + data_msgs_view(v, i + 1)
    }
}

pub proof fn lemma_data_msgs_view(v: Seq<DataMessage>, i: int)
    requires
        0 <= i <= v.len(),
    ensures
        data_msgs_view(v, i).len() == v.len() - i,
        forall|j: int| i <= j < v.len() ==> data_msgs_view(v, i)[j - i] == (#[trigger] v[j])@,
    decreases v.len() - i,
{
    if i < v.len() {
        lemma_data_msgs_view(v, i + 1);
    }
}

proof fn lemma_data_msgs_view_push(v: Seq<DataMessage>, x: DataMessage, i: int)
    requires
        0 <= i <= v.len(),
    ensures
        data_msgs_view(v.push(x), i) == data_msgs_view(v, i).push(x@),
    decreases v.len() - i,
{
    let a = v.push(x);
    if i < v.len() {
        lemma_data_msgs_view_push(v, x, i + 1);
        assert(a[i] == v[i]);
        assert(data_msgs_view(a, i) =~= data_msgs_view(v, i).push(x@));
    } else {
        assert(a[i] == x);
        assert(data_msgs_view(a, i + 1) =~= Seq::<crate::messages::DataMessageV>::empty());
        assert(data_msgs_view(a, i) =~= data_msgs_view(v, i).push(x@));
    }
}

/// The alarms a row list denotes: each row that decodes contributes its
/// message, in row order; the rest are skipped.
pub open spec fn decoded_alarm_rows(rows: Seq<Seq<char>>) -> Seq<crate::messages::AlarmMessageV>
    decreases rows.len(),
{
    if rows.len() == 0 {
        Seq::empty()
    } else {
        (match spec_alarm_of_text(rows[0]) {
            Some(a) => seq![a],
            None => Seq::empty(),
        }) + decoded_alarm_rows(rows.drop_first())
    }
}

proof fn lemma_decoded_alarm_rows_snoc(rows: Seq<Seq<char>>, i: int)
    requires
        0 <= i < rows.len(),
    ensures
        decoded_alarm_rows(rows.take(i + 1)) == decoded_alarm_rows(rows.take(i)) + (
        match spec_alarm_of_text(rows[i]) {
            Some(a) => seq![a],
            None => Seq::<crate::messages::AlarmMessageV>::empty(),
        }),
    decreases i,
{
    let a = rows.take(i + 1);
    let b = rows.take(i);
    let mi: Seq<crate::messages::AlarmMessageV> = match spec_alarm_of_text(rows[i]) {
        Some(m) => seq![m],
        None => Seq::empty(),
    };
    if i == 0 {
        assert(a.drop_first() =~= Seq::<Seq<char>>::empty());
        assert(decoded_alarm_rows(a.drop_first()) =~= Seq::<
            crate::messages::AlarmMessageV,
        >::empty());
        assert(a[0] == rows[0]);
        assert(decoded_alarm_rows(a) =~= mi);
        assert(decoded_alarm_rows(b) =~= Seq::<crate::messages::AlarmMessageV>::empty());
        assert(decoded_alarm_rows(b) + mi =~= mi);
    } else {
        lemma_decoded_alarm_rows_snoc(rows.drop_first(), i - 1);
        assert(a.drop_first() =~= rows.drop_first().take(i));
        assert(b.drop_first() =~= rows.drop_first().take(i - 1));
        assert(a[0] == rows[0] && b[0] == rows[0]);
        assert(rows.drop_first()[i - 1] == rows[i]);
        let m0: Seq<crate::messages::AlarmMessageV> = match spec_alarm_of_text(rows[0]) {
            Some(m) => seq![m],
            None => Seq::empty(),
        };
        assert(decoded_alarm_rows(a) == m0 + (decoded_alarm_rows(rows.drop_first().take(i - 1))
            + mi));
        assert(decoded_alarm_rows(b) + mi =~= m0 + (decoded_alarm_rows(
            rows.drop_first().take(i - 1),
        ) + mi));
    }
}

/// The data snapshots a row list denotes, rows that fail to decode skipped.
pub open spec fn decoded_data_rows(rows: Seq<Seq<char>>) -> Seq<crate::messages::DataMessageV>
    decreases rows.len(),
{
    if rows.len() == 0 {
        Seq::empty()
    } else {
        (match spec_data_of_text(rows[0]) {
            Some(d) => seq![d],
            None => Seq::empty(),
        }) + decoded_data_rows(rows.drop_first())
    }
}

proof fn lemma_decoded_data_rows_snoc(rows: Seq<Seq<char>>, i: int)
    requires
        0 <= i < rows.len(),
    ensures
        decoded_data_rows(rows.take(i + 1)) == decoded_data_rows(rows.take(i)) + (
        match spec_data_of_text(rows[i]) {
            Some(d) => seq![d],
            None => Seq::<crate::messages::DataMessageV>::empty(),
        }),
    decreases i,
{
    let a = rows.take(i + 1);
    let b = rows.take(i);
    let mi: Seq<crate::messages::DataMessageV> = match spec_data_of_text(rows[i]) {
        Some(m) => seq![m],
        None => Seq::empty(),
    };
    if i == 0 {
        assert(a.drop_first() =~= Seq::<Seq<char>>::empty());
        assert(decoded_data_rows(a.drop_first()) =~= Seq::<
            crate::messages::DataMessageV,
        >::empty());
        assert(a[0] == rows[0]);
        assert(decoded_data_rows(a) =~= mi);
        assert(decoded_data_rows(b) =~= Seq::<crate::messages::DataMessageV>::empty());
        assert(decoded_data_rows(b) + mi =~= mi);
    } else {
        lemma_decoded_data_rows_snoc(rows.drop_first(), i - 1);
        assert(a.drop_first() =~= rows.drop_first().take(i));
        assert(b.drop_first() =~= rows.drop_first().take(i - 1));
        assert(a[0] == rows[0] && b[0] == rows[0]);
        assert(rows.drop_first()[i - 1] == rows[i]);
        let m0: Seq<crate::messages::DataMessageV> = match spec_data_of_text(rows[0]) {
            Some(m) => seq![m],
            None => Seq::empty(),
        };
        assert(decoded_data_rows(a) == m0 + (decoded_data_rows(rows.drop_first().take(i - 1))
            + mi));
        assert(decoded_data_rows(b) + mi =~= m0 + (decoded_data_rows(
            rows.drop_first().take(i - 1),
        ) + mi));
    }
}

/// Decodes queried alarm rows: undecodable rows are skipped, and a reversed
/// read (a time-descending bounded query) comes back in ascending order.
pub fn decode_alarm_rows(rows: &Vec<String>, reverse: bool) -> (r: Vec<AlarmMessage>)
    ensures
        alarms_view(r@, 0) == (if reverse {
            decoded_alarm_rows(strs_view(rows@, 0)).reverse()
        } else {
            decoded_alarm_rows(strs_view(rows@, 0))
        }),
{
    let ghost rv = strs_view(rows@, 0);
    proof {
        crate::toml::lemma_strs_view(rows@, 0);
    }
    let mut fwd: Vec<AlarmMessage> = Vec::new();
    let mut i: usize = 0;
    proof {
        assert(rv.take(0) =~= Seq::<Seq<char>>::empty());
        assert(alarms_view(fwd@, 0) =~= decoded_alarm_rows(rv.take(0)));
    }
    while i < rows.len()
        invariant
            0 <= i <= rows.len(),
            rv == strs_view(rows@, 0),
            rv.len() == rows@.len(),
            forall|j: int| 0 <= j < rows@.len() ==> rv[j] == (#[trigger] rows@[j])@,
            alarms_view(fwd@, 0) == decoded_alarm_rows(rv.take(i as int)),
        decreases rows.len() - i,
    {
        match AlarmMessage::from_json_text(rows[i].as_str()) {
            Some(m) => {
                proof {
                    lemma_alarms_view_push(fwd@, m, 0);
                }
                fwd.push(m);
            },
            None => {},
        }
        proof {
            lemma_decoded_alarm_rows_snoc(rv, i as int);
            assert(alarms_view(fwd@, 0) =~= decoded_alarm_rows(rv.take(i + 1)));
        }
        i += 1;
    }
    proof {
        assert(rv.take(rv.len() as int) =~= rv);
    }
    if !reverse {
        return fwd;
    }
    let ghost dec = decoded_alarm_rows(rv);
    let ghost n = fwd@.len();
    proof {
        lemma_alarms_view(fwd@, 0);
    }
    let ghost orig = fwd@;
    proof {
        assert(orig.take(orig.len() as int) =~= orig);
    }
    let mut rev: Vec<AlarmMessage> = Vec::new();
    loop
        invariant
            rev@.len() + fwd@.len() == n,
            orig.len() == n,
            reverse,
            dec == decoded_alarm_rows(strs_view(rows@, 0)),
            alarms_view(orig, 0) == dec,
            fwd@ == orig.take(fwd@.len() as int),
            forall|k: int| 0 <= k < rev@.len() ==> (#[trigger] rev@[k])@ == orig[n - 1 - k]@,
        decreases fwd@.len(),
    {
        let popped = fwd.pop();
        match popped {
            Some(x) => {
                proof {
                    assert(orig.take(fwd@.len() as int + 1).last() == orig[fwd@.len() as int]);
                    assert(x == orig[fwd@.len() as int]);
                    assert(fwd@ =~= orig.take(fwd@.len() as int));
                }
                rev.push(x);
            },
            None => {
                proof {
                    lemma_alarms_view(rev@, 0);
                    lemma_alarms_view(orig, 0);
                    assert(rev@.len() == n);
                    assert(dec.len() == n);
                    assert forall|k: int| 0 <= k < n implies alarms_view(rev@, 0)[k]
                        == dec.reverse()[k] by {
                        assert(alarms_view(rev@, 0)[k] == rev@[k]@);
                        assert(rev@[k]@ == orig[n - 1 - k]@);
                        assert(alarms_view(orig, 0)[n - 1 - k] == orig[n - 1 - k]@);
                    }
                    assert(alarms_view(rev@, 0) =~= dec.reverse());
                }
                return rev;
            },
        }
    }
}

/// Decodes queried data rows, exactly as the alarm rows are decoded.
pub fn decode_data_rows(rows: &Vec<String>, reverse: bool) -> (r: Vec<DataMessage>)
    ensures
        data_msgs_view(r@, 0) == (if reverse {
            decoded_data_rows(strs_view(rows@, 0)).reverse()
        } else {
            decoded_data_rows(strs_view(rows@, 0))
        }),
{
    let ghost rv = strs_view(rows@, 0);
    proof {
        crate::toml::lemma_strs_view(rows@, 0);
    }
    let mut fwd: Vec<DataMessage> = Vec::new();
    let mut i: usize = 0;
    proof {
        assert(rv.take(0) =~= Seq::<Seq<char>>::empty());
        assert(data_msgs_view(fwd@, 0) =~= decoded_data_rows(rv.take(0)));
    }
    while i < rows.len()
        invariant
            0 <= i <= rows.len(),
            rv == strs_view(rows@, 0),
            rv.len() == rows@.len(),
            forall|j: int| 0 <= j < rows@.len() ==> rv[j] == (#[trigger] rows@[j])@,
            data_msgs_view(fwd@, 0) == decoded_data_rows(rv.take(i as int)),
        decreases rows.len() - i,
    {
        match DataMessage::from_json_text(rows[i].as_str()) {
            Some(m) => {
                proof {
                    lemma_data_msgs_view_push(fwd@, m, 0);
                }
                fwd.push(m);
            },
            None => {},
        }
        proof {
            lemma_decoded_data_rows_snoc(rv, i as int);
            assert(data_msgs_view(fwd@, 0) =~= decoded_data_rows(rv.take(i + 1)));
        }
        i += 1;
    }
    proof {
        assert(rv.take(rv.len() as int) =~= rv);
    }
    if !reverse {
        return fwd;
    }
    let ghost dec = decoded_data_rows(rv);
    let ghost n = fwd@.len();
    proof {
        lemma_data_msgs_view(fwd@, 0);
    }
    let ghost orig = fwd@;
    proof {
        assert(orig.take(orig.len() as int) =~= orig);
    }
    let mut rev: Vec<DataMessage> = Vec::new();
    loop
        invariant
            rev@.len() + fwd@.len() == n,
            orig.len() == n,
            reverse,
            dec == decoded_data_rows(strs_view(rows@, 0)),
            data_msgs_view(orig, 0) == dec,
            fwd@ == orig.take(fwd@.len() as int),
            forall|k: int| 0 <= k < rev@.len() ==> (#[trigger] rev@[k])@ == orig[n - 1 - k]@,
        decreases fwd@.len(),
    {
        let popped = fwd.pop();
        match popped {
            Some(x) => {
                proof {
                    assert(orig.take(fwd@.len() as int + 1).last() == orig[fwd@.len() as int]);
                    assert(x == orig[fwd@.len() as int]);
                    assert(fwd@ =~= orig.take(fwd@.len() as int));
                }
                rev.push(x);
            },
            None => {
                proof {
                    lemma_data_msgs_view(rev@, 0);
                    lemma_data_msgs_view(orig, 0);
                    assert(rev@.len() == n);
                    assert(dec.len() == n);
                    assert forall|k: int| 0 <= k < n implies data_msgs_view(rev@, 0)[k]
                        == dec.reverse()[k] by {
                        assert(data_msgs_view(rev@, 0)[k] == rev@[k]@);
                        assert(rev@[k]@ == orig[n - 1 - k]@);
                        assert(data_msgs_view(orig, 0)[n - 1 - k] == orig[n - 1 - k]@);
                    }
                    assert(data_msgs_view(rev@, 0) =~= dec.reverse());
                }
                return rev;
            },
        }
    }
}

} // verus!
