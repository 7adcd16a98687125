//! The shape that the batches with data share: access records of one size,
//! each of which declares the length of a block of data, and behind the last
//! record the blocks, in the order of the records. Nothing says how many
//! records there are. The records end where they and the data that they
//! declare fill the payload.

use crate::error::ProtoError;
use crate::proto::le_bytes::{get_u32, u32_at};
use vstd::prelude::*;

verus! {

/// The parts one behind the other.
pub open spec fn concat(parts: Seq<Seq<u8>>) -> Seq<u8>
    decreases parts.len(),
{
    if parts.len() == 0 {
        Seq::empty()
    } else {
        concat(parts.drop_last()) + parts.last()
    }
}

/// The length that record `i` declares, where a record has `rec` bytes and
/// declares a length at its offset `len_at`.
pub open spec fn declared_len(bytes: Seq<u8>, rec: nat, len_at: nat, i: nat) -> nat {
    u32_at(bytes, (rec * i + len_at) as int) as nat
}

/// The number of bytes of data that the first `k` records declare.
pub open spec fn promised(bytes: Seq<u8>, rec: nat, len_at: nat, k: nat) -> nat
    decreases k,
{
    if k == 0 {
        0
    } else {
        promised(bytes, rec, len_at, (k - 1) as nat) + declared_len(
            bytes,
            rec,
            len_at,
            (k - 1) as nat,
        )
    }
}

/// The number of records, counted on from `k` records that were read: the
/// first count at which the records and the data that they declare fill the
/// payload. There is none where they come to declare more than the payload
/// holds, or where what is left cannot hold another record.
pub open spec fn count_from(bytes: Seq<u8>, rec: nat, len_at: nat, k: nat) -> Result<
    nat,
    ProtoError,
>
    decreases bytes.len() - rec * k,
{
    if rec == 0 {
        Err(ProtoError::InvalidData)
    } else if rec * k + promised(bytes, rec, len_at, k) == bytes.len() {
        Ok(k)
    } else if rec * k + promised(bytes, rec, len_at, k) > bytes.len() {
        Err(ProtoError::InvalidData)
    } else if rec * (k + 1) > bytes.len() {
        Err(ProtoError::UnexpectedEof)
    } else {
        proof {
            assert(rec * (k + 1) == rec * k + rec) by (nonlinear_arith);
        }
        count_from(bytes, rec, len_at, k + 1)
    }
}

/// The number of records of a payload.
pub open spec fn record_count(bytes: Seq<u8>, rec: nat, len_at: nat) -> Result<nat, ProtoError> {
    count_from(bytes, rec, len_at, 0)
}

/// Where the data of record `i` begins, in a payload of `count` records.
pub open spec fn data_start(bytes: Seq<u8>, rec: nat, len_at: nat, count: nat, i: nat) -> int {
    (rec * count + promised(bytes, rec, len_at, i)) as int
}

/// The data of record `i`, in a payload of `count` records.
pub open spec fn data_of(bytes: Seq<u8>, rec: nat, len_at: nat, count: nat, i: nat) -> Seq<u8> {
    bytes.subrange(
        data_start(bytes, rec, len_at, count, i),
        data_start(bytes, rec, len_at, count, (i + 1) as nat),
    )
}

/// More records declare no less data.
pub proof fn lemma_promised_monotone(bytes: Seq<u8>, rec: nat, len_at: nat, i: nat, j: nat)
    requires
        i <= j,
    ensures
        promised(bytes, rec, len_at, i) <= promised(bytes, rec, len_at, j),
    decreases j,
{
    if i < j {
        lemma_promised_monotone(bytes, rec, len_at, i, (j - 1) as nat);
    }
}

/// Finds the number of records of a payload.
pub fn find_boundary(buf: &[u8], rec: usize, len_at: usize) -> (res: Result<usize, ProtoError>)
    requires
        len_at + 4 <= rec,
    ensures
        match res {
            Ok(count) => record_count(buf@, rec as nat, len_at as nat) == Ok::<nat, ProtoError>(
                count as nat,
            ) && rec * count + promised(buf@, rec as nat, len_at as nat, count as nat)
                == buf@.len(),
            Err(e) => record_count(buf@, rec as nat, len_at as nat) == Err::<nat, ProtoError>(e),
        },
{
    let len = buf.len();
    let mut count: usize = 0;
    let mut at: usize = 0;
    let mut declared: usize = 0;
    assert(rec * 0 == 0) by (nonlinear_arith);
    loop
        invariant
            len == buf@.len(),
            len_at + 4 <= rec,
            at == rec * count,
            declared == promised(buf@, rec as nat, len_at as nat, count as nat),
            at + declared <= len,
            count_from(buf@, rec as nat, len_at as nat, count as nat) == record_count(
                buf@,
                rec as nat,
                len_at as nat,
            ),
        decreases len - at,
    {
        if at + declared == len {
            return Ok(count);
        }
        if rec > len - at {
            assert(rec * (count + 1) == rec * count + rec) by (nonlinear_arith);
            return Err(ProtoError::UnexpectedEof);
        }
        let more = get_u32(buf, at + len_at) as usize;
        let left = len - at - rec;
        proof {
            assert(rec * (count + 1) == rec * count + rec) by (nonlinear_arith);
            assert(count <= at) by (nonlinear_arith)
                requires
                    at == rec * count,
                    rec >= 1,
            ;
            assert(promised(buf@, rec as nat, len_at as nat, (count + 1) as nat) == declared
                + more);
            assert(count_from(buf@, rec as nat, len_at as nat, count as nat) == count_from(
                buf@,
                rec as nat,
                len_at as nat,
                (count + 1) as nat,
            ));
        }
        if declared > left || more > left - declared {
            return Err(ProtoError::InvalidData);
        }
        at += rec;
        declared += more;
        count += 1;
    }
}

/// A record and the block of data that it declares.
pub struct Entry {
    pub record: Seq<u8>,
    pub data: Seq<u8>,
}

/// The records of the entries.
pub open spec fn records_of(entries: Seq<Entry>) -> Seq<Seq<u8>> {
    entries.map_values(|e: Entry| e.record)
}

/// The blocks of data of the entries.
pub open spec fn datas_of(entries: Seq<Entry>) -> Seq<Seq<u8>> {
    entries.map_values(|e: Entry| e.data)
}

/// The payload of a batch: the records, then the blocks of data.
pub open spec fn batch_wire(entries: Seq<Entry>) -> Seq<u8> {
    concat(records_of(entries)) + concat(datas_of(entries))
}

/// Whether every record has `rec` bytes and declares, at its offset
/// `len_at`, the length of its data.
pub open spec fn entries_wf(entries: Seq<Entry>, rec: nat, len_at: nat) -> bool {
    forall|i: int|
        0 <= i < entries.len() ==> (#[trigger] entries[i]).record.len() == rec && u32_at(
            entries[i].record,
            len_at as int,
        ) == entries[i].data.len()
}

/// The first parts of a list, one behind the other, are the front of the
/// whole, and part `k` lies where the parts before it end.
pub proof fn lemma_concat_part(parts: Seq<Seq<u8>>, k: int)
    requires
        0 <= k < parts.len(),
    ensures
        concat(parts.take(k)).len() + parts[k].len() == concat(parts.take(k + 1)).len(),
        concat(parts.take(k + 1)).len() <= concat(parts).len(),
        concat(parts).subrange(
            concat(parts.take(k)).len() as int,
            concat(parts.take(k + 1)).len() as int,
        ) == parts[k],
    decreases parts.len(),
{
    let front = parts.drop_last();
    assert(parts.take(k + 1).drop_last() =~= parts.take(k));
    if k + 1 < parts.len() {
        assert(front.take(k) =~= parts.take(k));
        assert(front.take(k + 1) =~= parts.take(k + 1));
        lemma_concat_part(front, k);
        assert(concat(parts).subrange(
            concat(parts.take(k)).len() as int,
            concat(parts.take(k + 1)).len() as int,
        ) =~= concat(front).subrange(
            concat(parts.take(k)).len() as int,
            concat(parts.take(k + 1)).len() as int,
        ));
    } else {
        assert(parts.take(k + 1) =~= parts);
        assert(parts.take(k) =~= front);
        assert(concat(parts).subrange(
            concat(parts.take(k)).len() as int,
            concat(parts.take(k + 1)).len() as int,
        ) =~= parts[k]);
    }
}

/// Parts of one size, one behind the other, take that size times their
/// number.
pub proof fn lemma_concat_even(parts: Seq<Seq<u8>>, size: nat, k: int)
    requires
        0 <= k <= parts.len(),
        forall|i: int| 0 <= i < parts.len() ==> (#[trigger] parts[i]).len() == size,
    ensures
        concat(parts.take(k)).len() == size * k,
    decreases k,
{
    if k == 0 {
        assert(parts.take(0) =~= Seq::empty());
        assert(size * 0 == 0) by (nonlinear_arith);
    } else {
        lemma_concat_even(parts, size, k - 1);
        assert(parts.take(k).drop_last() =~= parts.take(k - 1));
        assert(size * k == size * (k - 1) + size) by (nonlinear_arith);
    }
}

/// In the payload of a batch, record `i` lies at `rec * i`.
pub proof fn lemma_batch_record(entries: Seq<Entry>, rec: nat, len_at: nat, i: int)
    requires
        entries_wf(entries, rec, len_at),
        0 <= i < entries.len(),
    ensures
        concat(records_of(entries)).len() == rec * entries.len(),
        rec * i + rec <= rec * entries.len(),
        rec * i + rec <= batch_wire(entries).len(),
        batch_wire(entries).subrange(rec * i, rec * i + rec) == entries[i].record,
{
    let records = records_of(entries);
    assert forall|j: int| 0 <= j < records.len() implies (#[trigger] records[j]).len() == rec by {
        assert(entries[j].record.len() == rec);
    }
    lemma_concat_even(records, rec, i);
    lemma_concat_even(records, rec, i + 1);
    lemma_concat_even(records, rec, records.len() as int);
    assert(records.take(records.len() as int) =~= records);
    lemma_concat_part(records, i);
    assert(rec * (i + 1) == rec * i + rec) by (nonlinear_arith);
    assert(batch_wire(entries).subrange(rec * i, rec * i + rec) =~= concat(records).subrange(
        rec * i,
        rec * i + rec,
    ));
}

/// In the payload of a batch, the first `k` records declare the bytes of the
/// first `k` blocks of data.
pub proof fn lemma_batch_promised(entries: Seq<Entry>, rec: nat, len_at: nat, k: nat)
    requires
        entries_wf(entries, rec, len_at),
        len_at + 4 <= rec,
        k <= entries.len(),
    ensures
        promised(batch_wire(entries), rec, len_at, k) == concat(
            datas_of(entries).take(k as int),
        ).len(),
        promised(batch_wire(entries), rec, len_at, k) <= concat(datas_of(entries)).len(),
    decreases k,
{
    let datas = datas_of(entries);
    if k == 0 {
        assert(datas.take(0) =~= Seq::empty());
    } else {
        let i = (k - 1) as int;
        let bytes = batch_wire(entries);
        lemma_batch_promised(entries, rec, len_at, (k - 1) as nat);
        lemma_batch_record(entries, rec, len_at, i);
        lemma_concat_part(datas, i);
        assert(
            bytes.subrange(rec * i + len_at, rec * i + len_at + 4)
                =~= entries[i].record.subrange(
                len_at as int,
                (len_at + 4) as int,
            )
        );
        assert(declared_len(bytes, rec, len_at, i as nat) == entries[i].data.len());
    }
}

/// In the payload of a batch, the records end behind the last record and
/// nowhere before.
pub proof fn lemma_batch_count(entries: Seq<Entry>, rec: nat, len_at: nat, k: nat)
    requires
        entries_wf(entries, rec, len_at),
        rec > 0,
        len_at + 4 <= rec,
        k <= entries.len(),
    ensures
        count_from(batch_wire(entries), rec, len_at, k) == Ok::<nat, ProtoError>(entries.len()),
    decreases entries.len() - k,
{
    let bytes = batch_wire(entries);
    let count = entries.len();
    let datas = datas_of(entries);
    lemma_batch_promised(entries, rec, len_at, k);
    lemma_batch_promised(entries, rec, len_at, count);
    assert(datas.take(count as int) =~= datas);
    if count == 0 {
        assert(records_of(entries) =~= Seq::empty());
        assert(rec * k == 0) by (nonlinear_arith)
            requires
                k == 0,
        ;
    } else {
        lemma_batch_record(entries, rec, len_at, 0);
        if k < count {
            lemma_batch_record(entries, rec, len_at, k as int);
            lemma_batch_promised(entries, rec, len_at, k + 1);
            assert(rec * (k + 1) == rec * k + rec) by (nonlinear_arith);
            lemma_batch_count(entries, rec, len_at, k + 1);
        }
    }
}

/// The payload of a batch holds as many records as there are entries, its
/// records are those of the entries, and the data of each record is that of
/// its entry.
pub proof fn lemma_batch_round_trip(entries: Seq<Entry>, rec: nat, len_at: nat)
    requires
        entries_wf(entries, rec, len_at),
        rec > 0,
        len_at + 4 <= rec,
    ensures
        record_count(batch_wire(entries), rec, len_at) == Ok::<nat, ProtoError>(entries.len()),
        rec * entries.len() <= batch_wire(entries).len(),
        forall|i: int|
            0 <= i < entries.len() ==> batch_wire(entries).subrange(rec * i, rec * i + rec) == (
            #[trigger] entries[i]).record,
        forall|i: int|
            0 <= i < entries.len() ==> data_of(
                batch_wire(entries),
                rec,
                len_at,
                entries.len(),
                i as nat,
            ) == (#[trigger] entries[i]).data,
{
    let bytes = batch_wire(entries);
    let datas = datas_of(entries);
    lemma_batch_count(entries, rec, len_at, 0);
    assert(rec * entries.len() <= bytes.len()) by {
        if entries.len() > 0 {
            lemma_batch_record(entries, rec, len_at, 0);
        } else {
            assert(rec * entries.len() == 0) by (nonlinear_arith)
                requires
                    entries.len() == 0,
            ;
        }
    }
    assert forall|i: int| 0 <= i < entries.len() implies bytes.subrange(rec * i, rec * i + rec) == (
    #[trigger] entries[i]).record by {
        lemma_batch_record(entries, rec, len_at, i);
    }
    assert forall|i: int| 0 <= i < entries.len() implies data_of(
        bytes,
        rec,
        len_at,
        entries.len(),
        i as nat,
    ) == (#[trigger] entries[i]).data by {
        lemma_batch_record(entries, rec, len_at, i);
        lemma_batch_promised(entries, rec, len_at, i as nat);
        lemma_batch_promised(entries, rec, len_at, (i + 1) as nat);
        lemma_concat_part(datas, i);
        assert(data_of(bytes, rec, len_at, entries.len(), i as nat) =~= concat(datas).subrange(
            concat(datas.take(i)).len() as int,
            concat(datas.take(i + 1)).len() as int,
        ));
    }
}

} // verus!
