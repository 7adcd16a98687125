//! Many requests in the payload of one read-write or write request.

use crate::error::ProtoError;
use crate::proto::command_id::CommandID;
use crate::proto::le_bytes::{
    advance, get_bytes, get_u32, lemma_le_round_trips, put_bytes, put_u32, u32_at, u32_to_le,
};
use crate::proto::proto_traits::{ReadFrom, WriteTo};
use crate::proto::request::{
    ReadRequest, ReadWriteRequest, ReadWriteRequestView, WriteRequest, WriteRequestView,
};
use crate::proto::sumup::batch::{
    batch_wire, concat, data_of, datas_of, entries_wf, find_boundary, lemma_batch_round_trip,
    lemma_concat_even, lemma_concat_part, lemma_promised_monotone, promised, record_count,
    records_of, Entry,
};
use vstd::prelude::*;

verus! {

/// Read-write requests that travel as the data of one read-write request.
#[derive(Debug, Clone, PartialEq, Eq)]
pub struct SumupReadWriteRequest {
    pub read_write_requests: Vec<ReadWriteRequest>,
    pub command_id: CommandID,
}

/// What a list of read-write requests is.
pub open spec fn read_write_requests_view(
    items: Seq<ReadWriteRequest>,
) -> Seq<ReadWriteRequestView> {
    items.map_values(|item: ReadWriteRequest| item@)
}

/// The access record of a read-write request and its data.
pub open spec fn read_write_entry(r: ReadWriteRequestView) -> Entry {
    Entry {
        record: u32_to_le(r.index_group)
            + u32_to_le(r.index_offset)
            + u32_to_le(r.read_length)
            + u32_to_le(r.write_length),
        data: r.data,
    }
}

/// The access records of the read-write requests and their data.
pub open spec fn read_write_entries(items: Seq<ReadWriteRequestView>) -> Seq<Entry> {
    items.map_values(|r: ReadWriteRequestView| read_write_entry(r))
}

/// The read-write request number `i` of a payload of `count` records.
pub open spec fn read_write_item(bytes: Seq<u8>, count: nat, i: int) -> ReadWriteRequestView {
    ReadWriteRequestView {
        index_group: u32_at(bytes, 16 * i),
        index_offset: u32_at(bytes, 16 * i + 4),
        read_length: u32_at(bytes, 16 * i + 8),
        write_length: u32_at(bytes, 16 * i + 12),
        data: data_of(bytes, 16, 12, count, i as nat),
        command_id: CommandID::ReadWrite,
    }
}

/// What a batch of read-write requests is.
pub struct SumupReadWriteRequestView {
    pub read_write_requests: Seq<ReadWriteRequestView>,
    pub command_id: CommandID,
}

impl SumupReadWriteRequestView {
    /// Whether a batch is one that decoding can give back.
    pub open spec fn wf(self) -> bool {
        &&& self.command_id == CommandID::ReadWrite
        &&& forall|i: int|
            0 <= i < self.read_write_requests.len() ==>
                read_write_item_wf(#[trigger] self.read_write_requests[i])
    }
}

/// Whether a read-write request is one that decoding a batch can give back.
pub open spec fn read_write_item_wf(r: ReadWriteRequestView) -> bool {
    r.wf()
}

impl View for SumupReadWriteRequest {
    type V = SumupReadWriteRequestView;

    open spec fn view(&self) -> SumupReadWriteRequestView {
        SumupReadWriteRequestView {
            read_write_requests: read_write_requests_view(self.read_write_requests@),
            command_id: self.command_id,
        }
    }
}

impl SumupReadWriteRequest {
    /// The batch of the given items, in their order.
    pub fn new(read_write_requests: Vec<ReadWriteRequest>) -> (batch: Self)
        ensures
            batch@ == (SumupReadWriteRequestView {
                read_write_requests: read_write_requests_view(read_write_requests@),
                command_id: CommandID::ReadWrite,
            }),
    {
        SumupReadWriteRequest { read_write_requests, command_id: CommandID::ReadWrite }
    }
}

impl WriteTo for SumupReadWriteRequest {
    /// The access records of all items, then the data of all items.
    open spec fn wire(v: SumupReadWriteRequestView) -> Seq<u8> {
        batch_wire(read_write_entries(v.read_write_requests))
    }

    fn write_to(&self, wtr: &mut Vec<u8>) -> (res: Result<(), ProtoError>) {
        let mut access_data: Vec<u8> = Vec::new();
        let mut data: Vec<u8> = Vec::new();
        let ghost entries = read_write_entries(read_write_requests_view(self.read_write_requests@));
        let mut i: usize = 0;
        assert(records_of(entries.take(0)) =~= Seq::empty());
        assert(datas_of(entries.take(0)) =~= Seq::empty());
        while i < self.read_write_requests.len()
            invariant
                i <= self.read_write_requests.len(),
                entries == read_write_entries(read_write_requests_view(self.read_write_requests@)),
                access_data@ == concat(records_of(entries.take(i as int))),
                data@ == concat(datas_of(entries.take(i as int))),
            decreases self.read_write_requests.len() - i,
        {
            let item = &self.read_write_requests[i];
            let ghost records = access_data@;
            put_u32(&mut access_data, item.index_group);
            put_u32(&mut access_data, item.index_offset);
            put_u32(&mut access_data, item.read_length);
            put_u32(&mut access_data, item.write_length);
            put_bytes(&mut data, item.data.as_slice());
            proof {
                assert(records_of(entries.take(i + 1)).drop_last() =~= records_of(
                    entries.take(i as int),
                ));
                assert(datas_of(entries.take(i + 1)).drop_last() =~= datas_of(
                    entries.take(i as int),
                ));
                assert(access_data@ =~= records + read_write_entry(item@).record);
            }
            i += 1;
        }
        proof {
            assert(entries.take(i as int) =~= entries);
        }
        put_bytes(wtr, access_data.as_slice());
        put_bytes(wtr, data.as_slice());
        assert(wtr@ =~= old(wtr)@ + Self::wire(self@));
        Ok(())
    }
}

impl ReadFrom for SumupReadWriteRequest {
    /// The records end where they and the data that they declare fill the
    /// payload. Item `i` has the fields of record `i` and the data that lies
    /// behind the data of the items before it.
    open spec fn parse(bytes: Seq<u8>) -> Result<(SumupReadWriteRequestView, nat), ProtoError> {
        match record_count(bytes, 16, 12) {
            Err(e) => Err(e),
            Ok(count) => Ok(
                (
                    SumupReadWriteRequestView {
                        read_write_requests: Seq::new(
                            count,
                            |i: int| read_write_item(bytes, count, i),
                        ),
                    command_id: CommandID::ReadWrite,
                    },
                    bytes.len(),
                ),
            ),
        }
    }

    fn read_from(read: &mut &[u8]) -> (res: Result<Self, ProtoError>) {
        let buf: &[u8] = *read;
        let count = match find_boundary(buf, 16, 12) {
            Ok(count) => count,
            Err(e) => {
                return Err(e);
            },
        };
        let total = buf.len();
        let mut read_write_requests: Vec<ReadWriteRequest> = Vec::new();
        let mut data_at: usize = 16 * count;
        let mut i: usize = 0;
        assert(read_write_requests_view(read_write_requests@) =~= Seq::new(
            0,
            |j: int| read_write_item(buf@, count as nat, j),
        ));
        while i < count
            invariant
                i <= count,
                total == buf@.len(),
                16 * count + promised(buf@, 16, 12, count as nat) == buf@.len(),
                data_at == 16 * count + promised(buf@, 16, 12, i as nat),
                read_write_requests_view(read_write_requests@) == Seq::new(
                    i as nat,
                    |j: int| read_write_item(buf@, count as nat, j),
                ),
            decreases count - i,
        {
            let at = 16 * i;
            let length = get_u32(buf, at + 12);
            proof {
                lemma_promised_monotone(buf@, 16, 12, (i + 1) as nat, count as nat);
                assert(promised(buf@, 16, 12, (i + 1) as nat) == promised(
                    buf@,
                    16,
                    12,
                    i as nat,
                ) + length);
            }
            let data = get_bytes(buf, data_at, data_at + length as usize);
            let item = ReadWriteRequest::new(
                get_u32(buf, at),
                get_u32(buf, at + 4),
                get_u32(buf, at + 8),
                data,
            );
            proof {
                assert(item@ == read_write_item(buf@, count as nat, i as int));
                assert(
                    read_write_requests_view(read_write_requests@.push(item))
                        =~= read_write_requests_view(
                        read_write_requests@,
                    ).push(item@));
                    assert(read_write_requests_view(read_write_requests@).push(item@) =~= Seq::new(
                        (i + 1) as nat,
                        |j: int| read_write_item(buf@, count as nat, j),
                    )
                );
            }
            read_write_requests.push(item);
            data_at += length as usize;
            i += 1;
        }
        advance(read, total);
        Ok(SumupReadWriteRequest::new(read_write_requests))
    }
}

/// A batch of read-write requests, each with the write length of its data,
/// written and read again, is the same batch: the same requests in the same
/// order, also where a request has no data.
pub proof fn lemma_sumup_read_write_request_round_trip(v: SumupReadWriteRequestView)
    requires
        v.wf(),
    ensures
        SumupReadWriteRequest::parse(SumupReadWriteRequest::wire(v))
            == Ok::<(SumupReadWriteRequestView, nat), ProtoError>(
            (v, SumupReadWriteRequest::wire(v).len()),
        ),
{
    lemma_le_round_trips();
    let items = v.read_write_requests;
    let entries = read_write_entries(items);
    let bytes = SumupReadWriteRequest::wire(v);
    assert(entries_wf(entries, 16, 12)) by {
        assert forall|i: int| 0 <= i < entries.len() implies (#[trigger] entries[i]).record.len()
            == 16 && u32_at(entries[i].record, 12) == entries[i].data.len() by {
            let item = items[i];
            assert(read_write_item_wf(item));
            assert(entries[i].record.subrange(12, 16) =~= u32_to_le(item.write_length));
        }
    }
    lemma_batch_round_trip(entries, 16, 12);
    let decoded = Seq::new(items.len(), |i: int| read_write_item(bytes, items.len(), i));
    assert forall|i: int| 0 <= i < items.len() implies decoded[i] == items[i] by {
        let item = items[i];
        let record = entries[i].record;
        assert(read_write_item_wf(item));
        assert(bytes.subrange(16 * i, 16 * i + 16) == record);
        assert(data_of(bytes, 16, 12, items.len(), i as nat) == entries[i].data);
        assert(record.subrange(0, 4) =~= u32_to_le(item.index_group));
        assert(bytes.subrange(16 * i + 0, 16 * i + 4) =~= record.subrange(0, 4));
        assert(record.subrange(4, 8) =~= u32_to_le(item.index_offset));
        assert(bytes.subrange(16 * i + 4, 16 * i + 8) =~= record.subrange(4, 8));
        assert(record.subrange(8, 12) =~= u32_to_le(item.read_length));
        assert(bytes.subrange(16 * i + 8, 16 * i + 12) =~= record.subrange(8, 12));
        assert(record.subrange(12, 16) =~= u32_to_le(item.write_length));
        assert(bytes.subrange(16 * i + 12, 16 * i + 16) =~= record.subrange(12, 16));
    }
    assert(decoded =~= items);
}

/// Read requests that travel as the data of one read-write request.
#[derive(Debug, Clone, PartialEq, Eq)]
pub struct SumupReadRequest {
    pub read_requests: Vec<ReadRequest>,
    pub command_id: CommandID,
}

/// The number of bytes of the response to read requests: for each request the
/// bytes that it asks for, and eight for its status and length.
pub open spec fn expected_read_len(items: Seq<ReadRequest>) -> nat
    decreases items.len(),
{
    if items.len() == 0 {
        0
    } else {
        expected_read_len(items.drop_last()) + items.last().length as nat + 8
    }
}

/// The response to fewer requests has no more bytes.
pub proof fn lemma_expected_read_len(items: Seq<ReadRequest>, count: int)
    requires
        0 <= count <= items.len(),
    ensures
        expected_read_len(items.take(count)) <= expected_read_len(items),
    decreases items.len(),
{
    if count < items.len() {
        assert(items.drop_last().take(count) =~= items.take(count));
        lemma_expected_read_len(items.drop_last(), count);
    } else {
        assert(items.take(count) =~= items);
    }
}

/// The payloads of the read requests.
pub open spec fn read_parts(items: Seq<ReadRequest>) -> Seq<Seq<u8>> {
    items.map_values(|r: ReadRequest| ReadRequest::wire(r))
}

/// The read request number `i` of a payload.
pub open spec fn read_item(bytes: Seq<u8>, i: int) -> ReadRequest {
    ReadRequest {
        index_group: u32_at(bytes, 12 * i),
        index_offset: u32_at(bytes, 12 * i + 4),
        length: u32_at(bytes, 12 * i + 8),
        command_id: CommandID::Read,
    }
}

/// What a batch of read requests is.
pub struct SumupReadRequestView {
    pub read_requests: Seq<ReadRequest>,
    pub command_id: CommandID,
}

impl SumupReadRequestView {
    /// Whether a batch is one that decoding can give back.
    pub open spec fn wf(self) -> bool {
        &&& self.command_id == CommandID::Read
        &&& forall|i: int|
            0 <= i < self.read_requests.len() ==> (#[trigger] self.read_requests[i]).command_id
            == CommandID::Read
    }
}

impl View for SumupReadRequest {
    type V = SumupReadRequestView;

    open spec fn view(&self) -> SumupReadRequestView {
        SumupReadRequestView { read_requests: self.read_requests@, command_id: self.command_id }
    }
}

impl SumupReadRequest {
    /// The batch of the given items, in their order.
    pub fn new(read_requests: Vec<ReadRequest>) -> (batch: Self)
        ensures
            batch@ == (SumupReadRequestView {
                read_requests: read_requests@,
                command_id: CommandID::Read,
            }),
    {
        SumupReadRequest { read_requests, command_id: CommandID::Read }
    }

    /// The number of bytes of the response to this batch: for each request
    /// the bytes that it asks for, and eight for its status and length.
    pub fn expected_response_len(&self) -> (len: u32)
        requires
            expected_read_len(self@.read_requests) <= u32::MAX,
        ensures
            len == expected_read_len(self@.read_requests),
    {
        let mut result: u32 = 0;
        let mut i: usize = 0;
        assert(self.read_requests@.take(0) =~= Seq::empty());
        while i < self.read_requests.len()
            invariant
                i <= self.read_requests.len(),
                result == expected_read_len(self.read_requests@.take(i as int)),
                expected_read_len(self.read_requests@) <= u32::MAX,
            decreases self.read_requests.len() - i,
        {
            proof {
                assert(self.read_requests@.take(i + 1).drop_last() =~= self.read_requests@.take(
                    i as int,
                ));
                lemma_expected_read_len(self.read_requests@, i + 1);
            }
            result += self.read_requests[i].length + 8;
            i += 1;
        }
        proof {
            assert(self.read_requests@.take(i as int) =~= self.read_requests@);
        }
        result
    }

    /// The number of requests.
    pub fn request_count(&self) -> (count: u32)
        requires
            self@.read_requests.len() <= u32::MAX,
        ensures
            count == self@.read_requests.len(),
    {
        self.read_requests.len() as u32
    }
}

impl WriteTo for SumupReadRequest {
    /// The items one behind the other.
    open spec fn wire(v: SumupReadRequestView) -> Seq<u8> {
        concat(read_parts(v.read_requests))
    }

    fn write_to(&self, wtr: &mut Vec<u8>) -> (res: Result<(), ProtoError>) {
        let ghost parts = read_parts(self.read_requests@);
        let mut i: usize = 0;
        assert(parts.take(0) =~= Seq::empty());
        assert(wtr@ =~= old(wtr)@ + concat(parts.take(0)));
        while i < self.read_requests.len()
            invariant
                i <= self.read_requests.len(),
                parts == read_parts(self.read_requests@),
                wtr@ == old(wtr)@ + concat(parts.take(i as int)),
            decreases self.read_requests.len() - i,
        {
            let _ = self.read_requests[i].write_to(wtr);
            proof {
                assert(parts.take(i + 1).drop_last() =~= parts.take(i as int));
                assert(wtr@ =~= old(wtr)@ + concat(parts.take(i + 1)));
            }
            i += 1;
        }
        proof {
            assert(parts.take(i as int) =~= parts);
        }
        Ok(())
    }
}

impl ReadFrom for SumupReadRequest {
    /// A payload of read requests holds nothing but records of twelve bytes.
    /// One that ends within a record is cut short.
    open spec fn parse(bytes: Seq<u8>) -> Result<(SumupReadRequestView, nat), ProtoError> {
        if bytes.len() % 12 != 0 {
            Err(ProtoError::UnexpectedEof)
        } else {
            Ok(
                (
                    SumupReadRequestView {
                        read_requests: Seq::new(
                            bytes.len() / 12,
                            |i: int| read_item(bytes, i),
                        ),
                        command_id: CommandID::Read,
                    },
                    bytes.len(),
                ),
            )
        }
    }

    fn read_from(read: &mut &[u8]) -> (res: Result<Self, ProtoError>) {
        let buf: &[u8] = *read;
        if buf.len() % 12 != 0 {
            return Err(ProtoError::UnexpectedEof);
        }
        let total = buf.len();
        let count = total / 12;
        let mut read_requests: Vec<ReadRequest> = Vec::new();
        let mut i: usize = 0;
        assert(read_requests@ =~= Seq::new(0, |j: int| read_item(buf@, j)));
        while i < count
            invariant
                i <= count,
                total == buf@.len(),
                count == total / 12,
                read_requests@ == Seq::new(i as nat, |j: int| read_item(buf@, j)),
            decreases count - i,
        {
            let at = 12 * i;
            let item = ReadRequest::new(
                get_u32(buf, at),
                get_u32(buf, at + 4),
                get_u32(buf, at + 8),
            );
            proof {
                assert(read_requests@.push(item) =~= Seq::new(
                    (i + 1) as nat,
                    |j: int| read_item(buf@, j),
                ));
            }
            read_requests.push(item);
            i += 1;
        }
        advance(read, total);
        Ok(SumupReadRequest::new(read_requests))
    }
}

/// A batch of read requests that is written and read again is the same
/// batch: the same requests in the same order.
pub proof fn lemma_sumup_read_request_round_trip(v: SumupReadRequestView)
    requires
        v.wf(),
    ensures
        SumupReadRequest::wire(v).len() == 12 * v.read_requests.len(),
        SumupReadRequest::parse(SumupReadRequest::wire(v))
            == Ok::<(SumupReadRequestView, nat), ProtoError>(
            (v, SumupReadRequest::wire(v).len()),
        ),
{
    lemma_le_round_trips();
    let items = v.read_requests;
    let parts = read_parts(items);
    let bytes = SumupReadRequest::wire(v);
    assert forall|i: int| 0 <= i < parts.len() implies (#[trigger] parts[i]).len() == 12 by {
        assert(parts[i] == ReadRequest::wire(items[i]));
    }
    lemma_concat_even(parts, 12, parts.len() as int);
    assert(parts.take(parts.len() as int) =~= parts);
    let decoded = Seq::new(bytes.len() / 12, |i: int| read_item(bytes, i));
    assert forall|i: int| 0 <= i < items.len() implies decoded[i] == items[i] by {
        let item = items[i];
        lemma_concat_even(parts, 12, i);
        lemma_concat_even(parts, 12, i + 1);
        lemma_concat_part(parts, i);
        let part = bytes.subrange(12 * i, 12 * i + 12);
        assert(part == ReadRequest::wire(item));
        assert(part.subrange(0, 4) =~= u32_to_le(item.index_group));
        assert(part.subrange(4, 8) =~= u32_to_le(item.index_offset));
        assert(part.subrange(8, 12) =~= u32_to_le(item.length));
        assert(bytes.subrange(12 * i, 12 * i + 4) =~= part.subrange(0, 4));
        assert(bytes.subrange(12 * i + 4, 12 * i + 8) =~= part.subrange(4, 8));
        assert(bytes.subrange(12 * i + 8, 12 * i + 12) =~= part.subrange(8, 12));
    }
    assert(decoded =~= items);
}

/// Write requests that travel as the data of one read-write request.
#[derive(Debug, Clone, PartialEq, Eq)]
pub struct SumupWriteRequest {
    pub write_requests: Vec<WriteRequest>,
    pub command_id: CommandID,
}

/// What a list of write requests is.
pub open spec fn write_requests_view(items: Seq<WriteRequest>) -> Seq<WriteRequestView> {
    items.map_values(|item: WriteRequest| item@)
}

/// The access record of a write request and its data.
pub open spec fn write_entry(r: WriteRequestView) -> Entry {
    Entry {
        record: u32_to_le(r.index_group) + u32_to_le(r.index_offset) + u32_to_le(r.length),
        data: r.data,
    }
}

/// The access records of the write requests and their data.
pub open spec fn write_entries(items: Seq<WriteRequestView>) -> Seq<Entry> {
    items.map_values(|r: WriteRequestView| write_entry(r))
}

/// The write request number `i` of a payload of `count` records.
pub open spec fn write_item(bytes: Seq<u8>, count: nat, i: int) -> WriteRequestView {
    WriteRequestView {
        index_group: u32_at(bytes, 12 * i),
        index_offset: u32_at(bytes, 12 * i + 4),
        length: u32_at(bytes, 12 * i + 8),
        data: data_of(bytes, 12, 8, count, i as nat),
        command_id: CommandID::Write,
    }
}

/// What a batch of write requests is.
pub struct SumupWriteRequestView {
    pub write_requests: Seq<WriteRequestView>,
    pub command_id: CommandID,
}

impl SumupWriteRequestView {
    /// Whether a batch is one that decoding can give back.
    pub open spec fn wf(self) -> bool {
        &&& self.command_id == CommandID::Write
        &&& forall|i: int|
            0 <= i < self.write_requests.len() ==> write_item_wf(#[trigger] self.write_requests[i])
    }
}

/// Whether a write request is one that decoding a batch can give back.
pub open spec fn write_item_wf(r: WriteRequestView) -> bool {
    r.length == r.data.len() && r.command_id == CommandID::Write
}

impl View for SumupWriteRequest {
    type V = SumupWriteRequestView;

    open spec fn view(&self) -> SumupWriteRequestView {
        SumupWriteRequestView {
            write_requests: write_requests_view(self.write_requests@),
            command_id: self.command_id,
        }
    }
}

impl SumupWriteRequest {
    /// The batch of the given items, in their order.
    pub fn new(write_requests: Vec<WriteRequest>) -> (batch: Self)
        ensures
            batch@ == (SumupWriteRequestView {
                write_requests: write_requests_view(write_requests@),
                command_id: CommandID::Write,
            }),
    {
        SumupWriteRequest { write_requests, command_id: CommandID::Write }
    }

    /// The number of requests.
    pub fn request_count(&self) -> (count: u32)
        requires
            self@.write_requests.len() <= u32::MAX,
        ensures
            count == self@.write_requests.len(),
    {
        self.write_requests.len() as u32
    }

    /// The number of bytes of the response to this batch: four for each
    /// request.
    pub fn expected_response_len(&self) -> (len: u32)
        requires
            self@.write_requests.len() * 4 <= u32::MAX,
        ensures
            len == self@.write_requests.len() * 4,
    {
        self.request_count() * 4
    }
}

impl WriteTo for SumupWriteRequest {
    /// The access records of all items, then the data of all items.
    open spec fn wire(v: SumupWriteRequestView) -> Seq<u8> {
        batch_wire(write_entries(v.write_requests))
    }

    fn write_to(&self, wtr: &mut Vec<u8>) -> (res: Result<(), ProtoError>) {
        let mut access_data: Vec<u8> = Vec::new();
        let mut data: Vec<u8> = Vec::new();
        let ghost entries = write_entries(write_requests_view(self.write_requests@));
        let mut i: usize = 0;
        assert(records_of(entries.take(0)) =~= Seq::empty());
        assert(datas_of(entries.take(0)) =~= Seq::empty());
        while i < self.write_requests.len()
            invariant
                i <= self.write_requests.len(),
                entries == write_entries(write_requests_view(self.write_requests@)),
                access_data@ == concat(records_of(entries.take(i as int))),
                data@ == concat(datas_of(entries.take(i as int))),
            decreases self.write_requests.len() - i,
        {
            let item = &self.write_requests[i];
            let ghost records = access_data@;
            put_u32(&mut access_data, item.index_group);
            put_u32(&mut access_data, item.index_offset);
            put_u32(&mut access_data, item.length);
            put_bytes(&mut data, item.data.as_slice());
            proof {
                assert(records_of(entries.take(i + 1)).drop_last() =~= records_of(
                    entries.take(i as int),
                ));
                assert(datas_of(entries.take(i + 1)).drop_last() =~= datas_of(
                    entries.take(i as int),
                ));
                assert(access_data@ =~= records + write_entry(item@).record);
            }
            i += 1;
        }
        proof {
            assert(entries.take(i as int) =~= entries);
        }
        put_bytes(wtr, access_data.as_slice());
        put_bytes(wtr, data.as_slice());
        assert(wtr@ =~= old(wtr)@ + Self::wire(self@));
        Ok(())
    }
}

impl ReadFrom for SumupWriteRequest {
    /// The records end where they and the data that they declare fill the
    /// payload. Item `i` has the fields of record `i` and the data that lies
    /// behind the data of the items before it.
    open spec fn parse(bytes: Seq<u8>) -> Result<(SumupWriteRequestView, nat), ProtoError> {
        match record_count(bytes, 12, 8) {
            Err(e) => Err(e),
            Ok(count) => Ok(
                (
                    SumupWriteRequestView {
                        write_requests: Seq::new(count, |i: int| write_item(bytes, count, i)),
                    command_id: CommandID::Write,
                    },
                    bytes.len(),
                ),
            ),
        }
    }

    fn read_from(read: &mut &[u8]) -> (res: Result<Self, ProtoError>) {
        let buf: &[u8] = *read;
        let count = match find_boundary(buf, 12, 8) {
            Ok(count) => count,
            Err(e) => {
                return Err(e);
            },
        };
        let total = buf.len();
        let mut write_requests: Vec<WriteRequest> = Vec::new();
        let mut data_at: usize = 12 * count;
        let mut i: usize = 0;
        assert(write_requests_view(write_requests@) =~= Seq::new(
            0,
            |j: int| write_item(buf@, count as nat, j),
        ));
        while i < count
            invariant
                i <= count,
                total == buf@.len(),
                12 * count + promised(buf@, 12, 8, count as nat) == buf@.len(),
                data_at == 12 * count + promised(buf@, 12, 8, i as nat),
                write_requests_view(write_requests@) == Seq::new(
                    i as nat,
                    |j: int| write_item(buf@, count as nat, j),
                ),
            decreases count - i,
        {
            let at = 12 * i;
            let length = get_u32(buf, at + 8);
            proof {
                lemma_promised_monotone(buf@, 12, 8, (i + 1) as nat, count as nat);
                assert(promised(buf@, 12, 8, (i + 1) as nat) == promised(
                    buf@,
                    12,
                    8,
                    i as nat,
                ) + length);
            }
            let data = get_bytes(buf, data_at, data_at + length as usize);
            let item = WriteRequest::new(get_u32(buf, at), get_u32(buf, at + 4), data);
            proof {
                assert(item@ == write_item(buf@, count as nat, i as int));
                assert(write_requests_view(write_requests@.push(item)) =~= write_requests_view(
                    write_requests@,
                ).push(item@));
                assert(write_requests_view(write_requests@).push(item@) =~= Seq::new(
                    (i + 1) as nat,
                    |j: int| write_item(buf@, count as nat, j),
                ));
            }
            write_requests.push(item);
            data_at += length as usize;
            i += 1;
        }
        advance(read, total);
        Ok(SumupWriteRequest::new(write_requests))
    }
}

/// A batch of write requests, each with the length of its data, written and
/// read again, is the same batch: the same requests in the same order, also
/// where a request has no data.
pub proof fn lemma_sumup_write_request_round_trip(v: SumupWriteRequestView)
    requires
        v.wf(),
    ensures
        SumupWriteRequest::parse(SumupWriteRequest::wire(v))
            == Ok::<(SumupWriteRequestView, nat), ProtoError>(
            (v, SumupWriteRequest::wire(v).len()),
        ),
{
    lemma_le_round_trips();
    let items = v.write_requests;
    let entries = write_entries(items);
    let bytes = SumupWriteRequest::wire(v);
    assert(entries_wf(entries, 12, 8)) by {
        assert forall|i: int| 0 <= i < entries.len() implies (#[trigger] entries[i]).record.len()
            == 12 && u32_at(entries[i].record, 8) == entries[i].data.len() by {
            let item = items[i];
            assert(write_item_wf(item));
            assert(entries[i].record.subrange(8, 12) =~= u32_to_le(item.length));
        }
    }
    lemma_batch_round_trip(entries, 12, 8);
    let decoded = Seq::new(items.len(), |i: int| write_item(bytes, items.len(), i));
    assert forall|i: int| 0 <= i < items.len() implies decoded[i] == items[i] by {
        let item = items[i];
        let record = entries[i].record;
        assert(write_item_wf(item));
        assert(bytes.subrange(12 * i, 12 * i + 12) == record);
        assert(data_of(bytes, 12, 8, items.len(), i as nat) == entries[i].data);
        assert(record.subrange(0, 4) =~= u32_to_le(item.index_group));
        assert(bytes.subrange(12 * i + 0, 12 * i + 4) =~= record.subrange(0, 4));
        assert(record.subrange(4, 8) =~= u32_to_le(item.index_offset));
        assert(bytes.subrange(12 * i + 4, 12 * i + 8) =~= record.subrange(4, 8));
        assert(record.subrange(8, 12) =~= u32_to_le(item.length));
        assert(bytes.subrange(12 * i + 8, 12 * i + 12) =~= record.subrange(8, 12));
    }
    assert(decoded =~= items);
}

} // verus!
