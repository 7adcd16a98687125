//! Many responses in the data of one read-write response.

use crate::error::{lemma_status_code_bijection, AdsError, ProtoError};
use crate::proto::command_id::CommandID;
use crate::proto::le_bytes::{
    advance, get_bytes, get_u32, lemma_le_round_trips, put_bytes, put_u32, u32_at, u32_to_le,
};
use crate::proto::proto_traits::{ReadFrom, WriteTo};
use crate::proto::response::{ReadResponse, ReadResponseView, WriteResponse};
use crate::proto::sumup::batch::{
    batch_wire, concat, data_of, datas_of, entries_wf, find_boundary, lemma_batch_round_trip,
    lemma_concat_even, lemma_concat_part, lemma_promised_monotone, promised, record_count,
    records_of, Entry,
};
use vstd::prelude::*;

verus! {

/// Read responses that travel as the data of one read-write response.
#[derive(Debug, Clone, PartialEq, Eq)]
pub struct SumupReadResponse {
    pub read_responses: Vec<ReadResponse>,
}

/// What a list of read responses is.
pub open spec fn read_responses_view(items: Seq<ReadResponse>) -> Seq<ReadResponseView> {
    items.map_values(|item: ReadResponse| item@)
}

/// The access record of a read response and its data.
pub open spec fn read_response_entry(r: ReadResponseView) -> Entry {
    Entry { record: u32_to_le(r.result.code()) + u32_to_le(r.length), data: r.data }
}

/// The access records of the read responses and their data.
pub open spec fn read_response_entries(items: Seq<ReadResponseView>) -> Seq<Entry> {
    items.map_values(|r: ReadResponseView| read_response_entry(r))
}

/// The read response number `i` of a payload of `count` records.
pub open spec fn read_response_item(bytes: Seq<u8>, count: nat, i: int) -> ReadResponseView {
    ReadResponseView {
        result: AdsError::of_code(u32_at(bytes, 8 * i)),
        length: u32_at(bytes, 8 * i + 4),
        data: data_of(bytes, 8, 4, count, i as nat),
        command_id: CommandID::Read,
    }
}

/// What a batch of read responses is.
pub struct SumupReadResponseView {
    pub read_responses: Seq<ReadResponseView>,
}

impl SumupReadResponseView {
    /// Whether a batch is one that decoding can give back.
    pub open spec fn wf(self) -> bool {
        &&& forall|i: int|
            0 <= i < self.read_responses.len() ==>
                read_response_item_wf(#[trigger] self.read_responses[i])
    }
}

/// Whether a read response is one that decoding a batch can give back.
pub open spec fn read_response_item_wf(r: ReadResponseView) -> bool {
    r.length == r.data.len() && r.wf()
}

impl View for SumupReadResponse {
    type V = SumupReadResponseView;

    open spec fn view(&self) -> SumupReadResponseView {
        SumupReadResponseView {
            read_responses: read_responses_view(self.read_responses@),
        }
    }
}

impl SumupReadResponse {
    /// The batch of the given items, in their order.
    pub fn new(read_responses: Vec<ReadResponse>) -> (batch: Self)
        ensures
            batch@ == (SumupReadResponseView {
                read_responses: read_responses_view(read_responses@),
            }),
    {
        SumupReadResponse { read_responses }
    }
}

impl WriteTo for SumupReadResponse {
    /// The access records of all items, then the data of all items.
    open spec fn wire(v: SumupReadResponseView) -> Seq<u8> {
        batch_wire(read_response_entries(v.read_responses))
    }

    fn write_to(&self, wtr: &mut Vec<u8>) -> (res: Result<(), ProtoError>) {
        let mut access_data: Vec<u8> = Vec::new();
        let mut data: Vec<u8> = Vec::new();
        let ghost entries = read_response_entries(read_responses_view(self.read_responses@));
        let mut i: usize = 0;
        assert(records_of(entries.take(0)) =~= Seq::empty());
        assert(datas_of(entries.take(0)) =~= Seq::empty());
        while i < self.read_responses.len()
            invariant
                i <= self.read_responses.len(),
                entries == read_response_entries(read_responses_view(self.read_responses@)),
                access_data@ == concat(records_of(entries.take(i as int))),
                data@ == concat(datas_of(entries.take(i as int))),
            decreases self.read_responses.len() - i,
        {
            let item = &self.read_responses[i];
            let ghost records = access_data@;
            put_u32(&mut access_data, item.result.as_u32());
            put_u32(&mut access_data, item.length);
            put_bytes(&mut data, item.data.as_slice());
            proof {
                assert(records_of(entries.take(i + 1)).drop_last() =~= records_of(
                    entries.take(i as int),
                ));
                assert(datas_of(entries.take(i + 1)).drop_last() =~= datas_of(
                    entries.take(i as int),
                ));
                assert(access_data@ =~= records + read_response_entry(item@).record);
            }
            i += 1;
        }
        proof {
            assert(entries.take(i as int) =~= entries);
        }
        put_bytes(wtr, access_data.as_slice());
        put_bytes(wtr, data.as_slice());
        assert(wtr@ =~= old(wtr)@ + Self::wire(self@));
        Ok(())
    }
}

impl ReadFrom for SumupReadResponse {
    /// The records end where they and the data that they declare fill the
    /// payload. Item `i` has the fields of record `i` and the data that lies
    /// behind the data of the items before it.
    open spec fn parse(bytes: Seq<u8>) -> Result<(SumupReadResponseView, nat), ProtoError> {
        match record_count(bytes, 8, 4) {
            Err(e) => Err(e),
            Ok(count) => Ok(
                (
                    SumupReadResponseView {
                        read_responses: Seq::new(
                            count,
                            |i: int| read_response_item(bytes, count, i),
                        ),
                    },
                    bytes.len(),
                ),
            ),
        }
    }

    fn read_from(read: &mut &[u8]) -> (res: Result<Self, ProtoError>) {
        let buf: &[u8] = *read;
        let count = match find_boundary(buf, 8, 4) {
            Ok(count) => count,
            Err(e) => {
                return Err(e);
            },
        };
        let total = buf.len();
        let mut read_responses: Vec<ReadResponse> = Vec::new();
        let mut data_at: usize = 8 * count;
        let mut i: usize = 0;
        assert(read_responses_view(read_responses@) =~= Seq::new(
            0,
            |j: int| read_response_item(buf@, count as nat, j),
        ));
        while i < count
            invariant
                i <= count,
                total == buf@.len(),
                8 * count + promised(buf@, 8, 4, count as nat) == buf@.len(),
                data_at == 8 * count + promised(buf@, 8, 4, i as nat),
                read_responses_view(read_responses@) == Seq::new(
                    i as nat,
                    |j: int| read_response_item(buf@, count as nat, j),
                ),
            decreases count - i,
        {
            let at = 8 * i;
            let length = get_u32(buf, at + 4);
            proof {
                lemma_promised_monotone(buf@, 8, 4, (i + 1) as nat, count as nat);
                assert(promised(buf@, 8, 4, (i + 1) as nat) == promised(
                    buf@,
                    8,
                    4,
                    i as nat,
                ) + length);
            }
            let data = get_bytes(buf, data_at, data_at + length as usize);
            let item = ReadResponse::new(AdsError::from_code(get_u32(buf, at)), data);
            proof {
                assert(item@ == read_response_item(buf@, count as nat, i as int));
                assert(read_responses_view(read_responses@.push(item)) =~= read_responses_view(
                    read_responses@,
                ).push(item@));
                assert(read_responses_view(read_responses@).push(item@) =~= Seq::new(
                    (i + 1) as nat,
                    |j: int| read_response_item(buf@, count as nat, j),
                ));
            }
            read_responses.push(item);
            data_at += length as usize;
            i += 1;
        }
        advance(read, total);
        Ok(SumupReadResponse::new(read_responses))
    }
}

/// A batch of read responses, each with the length of its data and a
/// canonical status, written and read again, is the same batch: the same
/// responses in the same order, also where a response has no data.
pub proof fn lemma_sumup_read_response_round_trip(v: SumupReadResponseView)
    requires
        v.wf(),
    ensures
        SumupReadResponse::parse(SumupReadResponse::wire(v))
            == Ok::<(SumupReadResponseView, nat), ProtoError>(
            (v, SumupReadResponse::wire(v).len()),
        ),
{
    lemma_le_round_trips();
    let items = v.read_responses;
    let entries = read_response_entries(items);
    let bytes = SumupReadResponse::wire(v);
    assert(entries_wf(entries, 8, 4)) by {
        assert forall|i: int| 0 <= i < entries.len() implies (#[trigger] entries[i]).record.len()
            == 8 && u32_at(entries[i].record, 4) == entries[i].data.len() by {
            let item = items[i];
            assert(read_response_item_wf(item));
            assert(entries[i].record.subrange(4, 8) =~= u32_to_le(item.length));
        }
    }
    lemma_batch_round_trip(entries, 8, 4);
    let decoded = Seq::new(items.len(), |i: int| read_response_item(bytes, items.len(), i));
    assert forall|i: int| 0 <= i < items.len() implies decoded[i] == items[i] by {
        let item = items[i];
        let record = entries[i].record;
        assert(read_response_item_wf(item));
        assert(bytes.subrange(8 * i, 8 * i + 8) == record);
        assert(data_of(bytes, 8, 4, items.len(), i as nat) == entries[i].data);
        assert(record.subrange(0, 4) =~= u32_to_le(item.result.code()));
        assert(bytes.subrange(8 * i + 0, 8 * i + 4) =~= record.subrange(0, 4));
        assert(record.subrange(4, 8) =~= u32_to_le(item.length));
        assert(bytes.subrange(8 * i + 4, 8 * i + 8) =~= record.subrange(4, 8));
        lemma_status_code_bijection(item.result, 0);
    }
    assert(decoded =~= items);
}

/// Write responses that travel as the data of one read-write response.
#[derive(Debug, Clone, PartialEq, Eq)]
pub struct SumupWriteResponse {
    pub write_responses: Vec<WriteResponse>,
}

/// The payloads of the write responses.
pub open spec fn write_response_parts(items: Seq<WriteResponse>) -> Seq<Seq<u8>> {
    items.map_values(|r: WriteResponse| WriteResponse::wire(r))
}

/// The write response number `i` of a payload.
pub open spec fn write_response_item(bytes: Seq<u8>, i: int) -> WriteResponse {
    WriteResponse { result: AdsError::of_code(u32_at(bytes, 4 * i)), command_id: CommandID::Write }
}

/// What a batch of write responses is.
pub struct SumupWriteResponseView {
    pub write_responses: Seq<WriteResponse>,
}

impl SumupWriteResponseView {
    /// Whether a batch is one that decoding can give back.
    pub open spec fn wf(self) -> bool {
        &&& forall|i: int|
            0 <= i < self.write_responses.len() ==> (#[trigger] self.write_responses[i]).wf()
    }
}

impl View for SumupWriteResponse {
    type V = SumupWriteResponseView;

    open spec fn view(&self) -> SumupWriteResponseView {
        SumupWriteResponseView { write_responses: self.write_responses@ }
    }
}

impl SumupWriteResponse {
    /// The batch of the given items, in their order.
    pub fn new(write_responses: Vec<WriteResponse>) -> (batch: Self)
        ensures
            batch@ == (SumupWriteResponseView { write_responses: write_responses@ }),
    {
        SumupWriteResponse { write_responses }
    }
}

impl WriteTo for SumupWriteResponse {
    /// The items one behind the other.
    open spec fn wire(v: SumupWriteResponseView) -> Seq<u8> {
        concat(write_response_parts(v.write_responses))
    }

    fn write_to(&self, wtr: &mut Vec<u8>) -> (res: Result<(), ProtoError>) {
        let ghost parts = write_response_parts(self.write_responses@);
        let mut i: usize = 0;
        assert(parts.take(0) =~= Seq::empty());
        assert(wtr@ =~= old(wtr)@ + concat(parts.take(0)));
        while i < self.write_responses.len()
            invariant
                i <= self.write_responses.len(),
                parts == write_response_parts(self.write_responses@),
                wtr@ == old(wtr)@ + concat(parts.take(i as int)),
            decreases self.write_responses.len() - i,
        {
            let _ = self.write_responses[i].write_to(wtr);
            proof {
                assert(parts.take(i + 1).drop_last() =~= parts.take(i as int));
                assert(wtr@ =~= old(wtr)@ + concat(parts.take(i + 1)));
            }
            i += 1;
        }
        proof {
            assert(parts.take(i as int) =~= parts);
        }
        Ok(())
    }
}

impl ReadFrom for SumupWriteResponse {
    /// A payload of write responses holds a status in every four bytes. Up to
    /// three bytes behind the last status are passed over.
    open spec fn parse(bytes: Seq<u8>) -> Result<(SumupWriteResponseView, nat), ProtoError> {
            Ok(
                (
                    SumupWriteResponseView {
                        write_responses: Seq::new(
                            bytes.len() / 4,
                            |i: int| write_response_item(bytes, i),
                        ),
                    },
                    bytes.len(),
                ),
            )
    }

    fn read_from(read: &mut &[u8]) -> (res: Result<Self, ProtoError>) {
        let buf: &[u8] = *read;
        let total = buf.len();
        let count = total / 4;
        let mut write_responses: Vec<WriteResponse> = Vec::new();
        let mut i: usize = 0;
        assert(write_responses@ =~= Seq::new(0, |j: int| write_response_item(buf@, j)));
        while i < count
            invariant
                i <= count,
                total == buf@.len(),
                count == total / 4,
                write_responses@ == Seq::new(i as nat, |j: int| write_response_item(buf@, j)),
            decreases count - i,
        {
            let at = 4 * i;
            let item = WriteResponse::new(AdsError::from_code(get_u32(buf, at)));
            proof {
                assert(write_responses@.push(item) =~= Seq::new(
                    (i + 1) as nat,
                    |j: int| write_response_item(buf@, j),
                ));
            }
            write_responses.push(item);
            i += 1;
        }
        advance(read, total);
        Ok(SumupWriteResponse::new(write_responses))
    }
}

/// A batch of write responses with canonical statuses, written and read
/// again, is the same batch: the same responses in the same order.
pub proof fn lemma_sumup_write_response_round_trip(v: SumupWriteResponseView)
    requires
        v.wf(),
    ensures
        SumupWriteResponse::wire(v).len() == 4 * v.write_responses.len(),
        SumupWriteResponse::parse(SumupWriteResponse::wire(v))
            == Ok::<(SumupWriteResponseView, nat), ProtoError>(
            (v, SumupWriteResponse::wire(v).len()),
        ),
{
    lemma_le_round_trips();
    let items = v.write_responses;
    let parts = write_response_parts(items);
    let bytes = SumupWriteResponse::wire(v);
    assert forall|i: int| 0 <= i < parts.len() implies (#[trigger] parts[i]).len() == 4 by {
        assert(parts[i] == WriteResponse::wire(items[i]));
    }
    lemma_concat_even(parts, 4, parts.len() as int);
    assert(parts.take(parts.len() as int) =~= parts);
    let decoded = Seq::new(bytes.len() / 4, |i: int| write_response_item(bytes, i));
    assert forall|i: int| 0 <= i < items.len() implies decoded[i] == items[i] by {
        let item = items[i];
        lemma_concat_even(parts, 4, i);
        lemma_concat_even(parts, 4, i + 1);
        lemma_concat_part(parts, i);
        let part = bytes.subrange(4 * i, 4 * i + 4);
        assert(part == WriteResponse::wire(item));
        lemma_status_code_bijection(item.result, 0);
        assert(bytes.subrange(4 * i, 4 * i + 4) =~= part);
    }
    assert(decoded =~= items);
}

} // verus!
