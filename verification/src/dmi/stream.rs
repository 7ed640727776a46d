//! Tables as they are written, and what decoding makes of them: a table
//! written record by record is read back record by record.

use super::baseboard::Baseboard;
use super::battery::Battery;
use super::chassis::Chassis;
use super::firmware::{Firmware, FirmwareView};
use super::frame::{
    frame_at, nul_from, strings_from, table_text, DecodeError, FrameView, Header, StructureType,
};
use super::memory::PhysicalMemoryArray;
use super::system::System;
use super::{DMIView, SlotsView, DMI};
use vstd::prelude::*;

verus! {

/// A record before it is written: the type code and handle of its header,
/// its body, and its strings as bytes.
pub struct Record {
    pub kind: u8,
    pub handle: u16,
    pub body: Seq<u8>,
    pub strings: Seq<Seq<u8>>,
}

/// A string that can stand in a string table: not empty, and free of NUL.
pub open spec fn is_entry(s: Seq<u8>) -> bool {
    s.len() > 0 && forall|k: int| 0 <= k < s.len() ==> s[k] != 0
}

/// Strings that can stand in a string table.
pub open spec fn are_entries(strings: Seq<Seq<u8>>) -> bool {
    forall|i: int| 0 <= i < strings.len() ==> is_entry(#[trigger] strings[i])
}

/// The strings one after another, each closed by a NUL.
pub open spec fn strings_bytes(strings: Seq<Seq<u8>>) -> Seq<u8>
    decreases strings.len(),
{
    if strings.len() == 0 {
        Seq::empty()
    } else {
        strings[0] + seq![0u8] + strings_bytes(strings.drop_first())
    }
}

/// A string table as it is written: the strings, each closed by a NUL, and
/// one more NUL; two NULs where there is no string.
pub open spec fn table_bytes(strings: Seq<Seq<u8>>) -> Seq<u8> {
    if strings.len() == 0 {
        seq![0u8, 0u8]
    } else {
        strings_bytes(strings) + seq![0u8]
    }
}

impl Record {
    /// What the header says the record is.
    pub open spec fn structure_type(self) -> StructureType {
        StructureType::of(self.kind)
    }

    /// Whether the record can be written and found again: it is no end
    /// marker, its length fits the header's length byte, and its strings can
    /// stand in a string table.
    pub open spec fn well_formed(self) -> bool {
        &&& self.structure_type() != StructureType::End
        &&& self.body.len() + 4 <= 255
        &&& are_entries(self.strings)
    }

    /// Whether the body can be decoded as what the header says it is.
    pub open spec fn accepted(self) -> bool {
        SlotsView::accepts(self.structure_type(), self.body)
    }

    /// The header as it is written: type, length, and the handle with its
    /// high byte first.
    pub open spec fn header_bytes(self) -> Seq<u8> {
        seq![
            self.kind,
            (self.body.len() + 4) as u8,
            (self.handle / 256) as u8,
            (self.handle % 256) as u8,
        ]
    }

    /// The record as it is written: header, body, string table.
    pub open spec fn encoded(self) -> Seq<u8> {
        self.header_bytes() + self.body + table_bytes(self.strings)
    }

    /// The header as it is read back.
    pub open spec fn header(self) -> Header {
        Header {
            structure_type: self.structure_type(),
            length: (self.body.len() + 4) as u8,
            handle: self.handle,
        }
    }
}

/// Records as they are written, one after another.
pub open spec fn stream(records: Seq<Record>) -> Seq<u8>
    decreases records.len(),
{
    if records.len() == 0 {
        Seq::empty()
    } else {
        records[0].encoded() + stream(records.drop_first())
    }
}

/// Whether all records can be written and found again.
pub open spec fn all_well_formed(records: Seq<Record>) -> bool {
    forall|i: int| 0 <= i < records.len() ==> (#[trigger] records[i]).well_formed()
}

/// Whether the body of every record can be decoded.
pub open spec fn all_accepted(records: Seq<Record>) -> bool {
    forall|i: int| 0 <= i < records.len() ==> (#[trigger] records[i]).accepted()
}

/// Whether a record of the given kind is among the records.
pub open spec fn occurs(records: Seq<Record>, kind: StructureType) -> bool {
    exists|i: int| 0 <= i < records.len() && (#[trigger] records[i]).structure_type() == kind
}

/// Four bytes that mark the end of a table.
pub open spec fn is_end_marker(end: Seq<u8>) -> bool {
    end.len() == 4 && StructureType::of(end[0]) == StructureType::End
}

/// What storing the records one after another and then finishing gives.
pub open spec fn folded(records: Seq<Record>, slots: SlotsView) -> Result<DMIView, DecodeError>
    decreases records.len(),
{
    if records.len() == 0 {
        slots.finished()
    } else {
        match slots.stored(
            records[0].structure_type(),
            records[0].body,
            table_text(records[0].strings),
        ) {
            Err(e) => Err(e),
            Ok(filled) => folded(records.drop_first(), filled),
        }
    }
}

proof fn lemma_nul_at(bytes: Seq<u8>, from: int, nul: int)
    requires
        0 <= from <= nul < bytes.len(),
        bytes[nul] == 0,
        forall|k: int| from <= k < nul ==> bytes[k] != 0,
    ensures
        nul_from(bytes, from) == nul,
    decreases nul - from,
{
    if from < nul {
        lemma_nul_at(bytes, from + 1, nul);
    }
}

proof fn lemma_strings_read_back(
    bytes: Seq<u8>,
    from: int,
    strings: Seq<Seq<u8>>,
    seen_zero: bool,
    seen_string: bool,
)
    requires
        are_entries(strings),
        strings.len() > 0 || seen_zero || seen_string,
        0 <= from,
        from + strings_bytes(strings).len() < bytes.len(),
        bytes.subrange(from, from + strings_bytes(strings).len()) == strings_bytes(strings),
        bytes[from + strings_bytes(strings).len()] == 0,
    ensures
        strings_from(bytes, from, seen_zero, seen_string) == Some(
            (strings, from + strings_bytes(strings).len() + 1),
        ),
    decreases strings.len(),
{
    if strings.len() == 0 {
        lemma_nul_at(bytes, from, from);
    } else {
        let first = strings[0];
        let rest = strings.drop_first();
        let run = first + seq![0u8];
        let all = strings_bytes(strings);
        assert(all == run + strings_bytes(rest));
        let nul = from + first.len();
        assert(is_entry(first));
        assert forall|k: int| from <= k < nul implies bytes[k] != 0 by {
            assert(bytes[k] == bytes.subrange(from, from + all.len())[k - from]);
            assert(all[k - from] == first[k - from]);
        }
        assert(bytes[nul] == 0) by {
            assert(bytes[nul] == bytes.subrange(from, from + all.len())[nul - from]);
            assert(all[nul - from] == run[nul - from]);
        }
        lemma_nul_at(bytes, from, nul);
        assert(bytes.subrange(from, nul) =~= first) by {
            assert forall|k: int| 0 <= k < first.len() implies bytes.subrange(from, nul)[k]
                == first[k] by {
                assert(bytes[from + k] == bytes.subrange(from, from + all.len())[k]);
                assert(all[k] == first[k]);
            }
        }
        assert(are_entries(rest)) by {
            assert forall|i: int| 0 <= i < rest.len() implies is_entry(#[trigger] rest[i]) by {
                assert(rest[i] == strings[i + 1]);
            }
        }
        assert(bytes.subrange(nul + 1, nul + 1 + strings_bytes(rest).len()) =~= strings_bytes(
            rest,
        )) by {
            assert forall|k: int| 0 <= k < strings_bytes(rest).len() implies bytes.subrange(
                nul + 1,
                nul + 1 + strings_bytes(rest).len(),
            )[k] == strings_bytes(rest)[k] by {
                assert(bytes[nul + 1 + k] == bytes.subrange(from, from + all.len())[first.len() + 1
                    + k]);
                assert(all[first.len() + 1 + k] == strings_bytes(rest)[k]);
            }
        }
        lemma_strings_read_back(bytes, nul + 1, rest, seen_zero, true);
        assert(seq![first] + rest =~= strings);
    }
}

/// A string table that was written is read back as it was written, wherever
/// it stands and whatever follows it.
pub proof fn lemma_table_reads_back(bytes: Seq<u8>, from: int, strings: Seq<Seq<u8>>)
    requires
        are_entries(strings),
        0 <= from,
        from + table_bytes(strings).len() <= bytes.len(),
        bytes.subrange(from, from + table_bytes(strings).len()) == table_bytes(strings),
    ensures
        strings_from(bytes, from, false, false) == Some(
            (strings, from + table_bytes(strings).len()),
        ),
{
    let table = table_bytes(strings);
    if strings.len() == 0 {
        assert(bytes[from] == bytes.subrange(from, from + 2)[0]);
        assert(bytes[from + 1] == bytes.subrange(from, from + 2)[1]);
        lemma_nul_at(bytes, from, from);
        lemma_nul_at(bytes, from + 1, from + 1);
        assert(strings =~= Seq::<Seq<u8>>::empty());
        assert(strings_from(bytes, from + 1, true, false) == Some((strings, from + 2)));
        assert(strings_from(bytes, from, false, false) == strings_from(
            bytes,
            from + 1,
            true,
            false,
        ));
    } else {
        let written = strings_bytes(strings);
        assert(bytes.subrange(from, from + written.len()) =~= written) by {
            assert forall|k: int| 0 <= k < written.len() implies bytes.subrange(
                from,
                from + written.len(),
            )[k] == written[k] by {
                assert(bytes[from + k] == bytes.subrange(from, from + table.len())[k]);
            }
        }
        assert(bytes[from + written.len()] == 0) by {
            assert(bytes[from + written.len()] == bytes.subrange(from, from + table.len())[written.len() as int]);
        }
        lemma_strings_read_back(bytes, from, strings, false, false);
    }
}

/// A record that was written is framed as it was written, wherever it
/// stands and whatever follows it.
pub proof fn lemma_record_frames_back(bytes: Seq<u8>, at: int, record: Record)
    requires
        record.well_formed(),
        0 <= at,
        at + record.encoded().len() <= bytes.len(),
        bytes.subrange(at, at + record.encoded().len()) == record.encoded(),
    ensures
        frame_at(bytes, at) == Ok::<Option<FrameView>, DecodeError>(
            Some(
                FrameView {
                    header: record.header(),
                    body: record.body,
                    table: table_text(record.strings),
                    next: at + record.encoded().len(),
                },
            ),
        ),
{
    let written = record.encoded();
    let head = record.header_bytes();
    let table = table_bytes(record.strings);
    let length = record.body.len() + 4;
    assert forall|k: int| 0 <= k < written.len() implies bytes[at + k] == written[k] by {
        assert(bytes[at + k] == bytes.subrange(at, at + written.len())[k]);
    }
    assert(bytes.subrange(at, at + 4) =~= head) by {
        assert forall|k: int| 0 <= k < 4 implies bytes.subrange(at, at + 4)[k] == head[k] by {
            assert(written[k] == head[k]);
        }
    }
    assert(Header::of(head) == record.header()) by {
        let h = record.handle;
        assert(0x100 * (h / 256) + h % 256 == h);
    }
    assert(bytes.subrange(at + 4, at + length) =~= record.body) by {
        assert forall|k: int| 0 <= k < record.body.len() implies bytes.subrange(
            at + 4,
            at + length,
        )[k] == record.body[k] by {
            assert(written[4 + k] == record.body[k]);
        }
    }
    assert(bytes.subrange(at + length, at + length + table.len()) =~= table) by {
        assert forall|k: int| 0 <= k < table.len() implies bytes.subrange(
            at + length,
            at + length + table.len(),
        )[k] == table[k] by {
            assert(written[length + k] == table[k]);
        }
    }
    lemma_table_reads_back(bytes, at + length, record.strings);
}

proof fn lemma_first_record_frames_back(bytes: Seq<u8>, at: int, records: Seq<Record>)
    requires
        all_well_formed(records),
        records.len() > 0,
        0 <= at,
        at + stream(records).len() + 4 <= bytes.len(),
        bytes.subrange(at, at + stream(records).len()) == stream(records),
    ensures
        frame_at(bytes, at) == Ok::<Option<FrameView>, DecodeError>(
            Some(
                FrameView {
                    header: records[0].header(),
                    body: records[0].body,
                    table: table_text(records[0].strings),
                    next: at + records[0].encoded().len(),
                },
            ),
        ),
        all_well_formed(records.drop_first()),
        stream(records).len() == records[0].encoded().len() + stream(records.drop_first()).len(),
        bytes.subrange(
            at + records[0].encoded().len(),
            at + stream(records).len(),
        ) == stream(records.drop_first()),
{
    let record = records[0];
    let rest = records.drop_first();
    let written = record.encoded();
    let all = stream(records);
    assert(all == written + stream(rest));
    assert(record.well_formed());
    assert(bytes.subrange(at, at + written.len()) =~= written) by {
        assert forall|k: int| 0 <= k < written.len() implies bytes.subrange(
            at,
            at + written.len(),
        )[k] == written[k] by {
            assert(bytes[at + k] == bytes.subrange(at, at + all.len())[k]);
            assert(all[k] == written[k]);
        }
    }
    lemma_record_frames_back(bytes, at, record);
    let next = at + written.len();
    assert(bytes.subrange(next, at + all.len()) =~= stream(rest)) by {
        assert forall|k: int| 0 <= k < stream(rest).len() implies bytes.subrange(
            next,
            at + all.len(),
        )[k] == stream(rest)[k] by {
            assert(bytes[next + k] == bytes.subrange(at, at + all.len())[written.len() + k]);
            assert(all[written.len() + k] == stream(rest)[k]);
        }
    }
    assert(all_well_formed(rest)) by {
        assert forall|i: int| 0 <= i < rest.len() implies (#[trigger] rest[i]).well_formed() by {
            assert(rest[i] == records[i + 1]);
        }
    }
}

proof fn lemma_decoded_from_stream(bytes: Seq<u8>, at: int, records: Seq<Record>, slots: SlotsView)
    requires
        all_well_formed(records),
        0 <= at,
        at + stream(records).len() + 4 <= bytes.len(),
        bytes.subrange(at, at + stream(records).len()) == stream(records),
        StructureType::of(bytes[at + stream(records).len()]) == StructureType::End,
    ensures
        DMI::decoded_from(bytes, at, slots) == folded(records, slots),
    decreases records.len(),
{
    if records.len() == 0 {
        assert(bytes.subrange(at, at + 4)[0] == bytes[at]);
    } else {
        let record = records[0];
        let rest = records.drop_first();
        lemma_first_record_frames_back(bytes, at, records);
        let next = at + record.encoded().len();
        let stored = slots.stored(
            record.structure_type(),
            record.body,
            table_text(record.strings),
        );
        if stored is Ok {
            lemma_decoded_from_stream(bytes, next, rest, stored->Ok_0);
        }
    }
}

/// A table that was written record by record and closed by an end marker
/// decodes to what storing its records one after another gives, whatever
/// follows the end marker.
pub proof fn lemma_stream_decodes_as_written(records: Seq<Record>, end: Seq<u8>, tail: Seq<u8>)
    requires
        all_well_formed(records),
        is_end_marker(end),
    ensures
        DMI::decoded(stream(records) + end + tail) == folded(records, SlotsView::empty()),
{
    let bytes = stream(records) + end + tail;
    assert(bytes.subrange(0, stream(records).len() as int) =~= stream(records));
    assert(bytes[stream(records).len() as int] == end[0]);
    lemma_decoded_from_stream(bytes, 0, records, SlotsView::empty());
}

/// Whether the slot of a mandatory kind is taken; of other kinds, true.
pub open spec fn holds(slots: SlotsView, kind: StructureType) -> bool {
    match kind {
        StructureType::Firmware => slots.firmware is Some,
        StructureType::System => slots.system is Some,
        StructureType::Baseboard => slots.baseboard is Some,
        StructureType::Chassis => slots.chassis is Some,
        StructureType::PhysicalMemoryArray => slots.memory is Some,
        StructureType::Battery => slots.battery is Some,
        _ => true,
    }
}

proof fn lemma_folded_is_complete(records: Seq<Record>, slots: SlotsView)
    requires
        all_accepted(records),
        forall|kind: StructureType| #[trigger] holds(slots, kind) || occurs(records, kind),
    ensures
        folded(records, slots) is Ok,
    decreases records.len(),
{
    if records.len() == 0 {
        assert(holds(slots, StructureType::Firmware));
        assert(holds(slots, StructureType::System));
        assert(holds(slots, StructureType::Baseboard));
        assert(holds(slots, StructureType::Chassis));
        assert(holds(slots, StructureType::PhysicalMemoryArray));
        assert(holds(slots, StructureType::Battery));
    } else {
        let record = records[0];
        let rest = records.drop_first();
        assert(record.accepted());
        let filled = slots.with(record.structure_type(), record.body, table_text(record.strings));
        reveal(SlotsView::with);
        assert(all_accepted(rest)) by {
            assert forall|i: int| 0 <= i < rest.len() implies (#[trigger] rest[i]).accepted() by {
                assert(rest[i] == records[i + 1]);
            }
        }
        assert forall|kind: StructureType| #[trigger] holds(filled, kind) || occurs(rest, kind) by {
            if !holds(filled, kind) {
                assert(holds(slots, kind) || occurs(records, kind));
                assert(!holds(slots, kind));
                let i = choose|i: int|
                    0 <= i < records.len() && (#[trigger] records[i]).structure_type() == kind;
                assert(i != 0);
                assert(rest[i - 1] == records[i]);
            }
        }
        lemma_folded_is_complete(rest, filled);
    }
}

/// A table that holds a record of each of the six mandatory kinds, written
/// so that every record can be found again and decoded, and closed by an end
/// marker, decodes to a model.
pub proof fn lemma_complete_stream_decodes(records: Seq<Record>, end: Seq<u8>, tail: Seq<u8>)
    requires
        all_well_formed(records),
        all_accepted(records),
        occurs(records, StructureType::Firmware),
        occurs(records, StructureType::System),
        occurs(records, StructureType::Baseboard),
        occurs(records, StructureType::Chassis),
        occurs(records, StructureType::PhysicalMemoryArray),
        occurs(records, StructureType::Battery),
        is_end_marker(end),
    ensures
        DMI::decoded(stream(records) + end + tail) is Ok,
        DMI::decoded(stream(records) + end + tail) == folded(records, SlotsView::empty()),
{
    lemma_stream_decodes_as_written(records, end, tail);
    lemma_folded_is_complete(records, SlotsView::empty());
}

/// A table that lacks a record of a mandatory kind decodes to no model,
/// whatever else it holds. Where the body of every record can be decoded,
/// the failure is that a mandatory record is missing.
pub proof fn lemma_incomplete_stream_fails(
    records: Seq<Record>,
    end: Seq<u8>,
    tail: Seq<u8>,
    kind: StructureType,
)
    requires
        all_well_formed(records),
        is_end_marker(end),
        is_mandatory(kind),
        !occurs(records, kind),
    ensures
        DMI::decoded(stream(records) + end + tail) is Err,
        all_accepted(records) ==> DMI::decoded(stream(records) + end + tail) matches Err(
            DecodeError::MissingMandatoryRecord(_),
        ),
{
    lemma_stream_decodes_as_written(records, end, tail);
    lemma_folded_lacks(records, SlotsView::empty(), kind);
}

proof fn lemma_folded_lacks(records: Seq<Record>, slots: SlotsView, kind: StructureType)
    requires
        !holds(slots, kind),
        !occurs(records, kind),
    ensures
        folded(records, slots) is Err,
        all_accepted(records) ==> folded(records, slots) matches Err(
            DecodeError::MissingMandatoryRecord(_),
        ),
    decreases records.len(),
{
    if records.len() > 0 {
        let record = records[0];
        let rest = records.drop_first();
        assert(record.structure_type() != kind);
        assert(!occurs(rest, kind)) by {
            if occurs(rest, kind) {
                let i = choose|i: int|
                    0 <= i < rest.len() && (#[trigger] rest[i]).structure_type() == kind;
                assert(rest[i] == records[i + 1]);
            }
        }
        if all_accepted(records) {
            assert(record.accepted());
            assert(all_accepted(rest)) by {
                assert forall|i: int| 0 <= i < rest.len() implies (#[trigger] rest[i]).accepted() by {
                    assert(rest[i] == records[i + 1]);
                }
            }
        }
        match slots.stored(record.structure_type(), record.body, table_text(record.strings)) {
            Err(e) => {},
            Ok(filled) => {
                reveal(SlotsView::with);
                lemma_folded_lacks(rest, filled, kind);
            },
        }
    }
}

/// Whether a kind is one of the six of which a model holds a record.
pub open spec fn is_mandatory(kind: StructureType) -> bool {
    kind == StructureType::Firmware || kind == StructureType::System || kind
        == StructureType::Baseboard || kind == StructureType::Chassis || kind
        == StructureType::PhysicalMemoryArray || kind == StructureType::Battery
}

/// A firmware record without what a language record may have added to it.
pub open spec fn without_languages(firmware: FirmwareView) -> FirmwareView {
    FirmwareView { language_infos: None, ..firmware }
}

/// Whether the model's record of the kind of `record` is what `record`
/// decodes to. A firmware record is compared without its languages, which
/// come from another record.
#[verifier::opaque]
pub open spec fn shows(model: DMIView, record: Record) -> bool {
    let table = table_text(record.strings);
    match record.structure_type() {
        StructureType::Firmware => without_languages(model.firmware) == Firmware::decoded(
            record.body,
            table,
        ),
        StructureType::System => model.system == System::decoded(record.body, table),
        StructureType::Baseboard => model.baseboard == Baseboard::decoded(record.body, table),
        StructureType::Chassis => model.chassis == Chassis::decoded(record.body, table),
        StructureType::PhysicalMemoryArray => model.memory == PhysicalMemoryArray::decoded(
            record.body,
        ),
        StructureType::Battery => model.battery == Battery::decoded(record.body, table),
        _ => true,
    }
}

/// Whether the model's record of the given kind is the one in the slots.
#[verifier::opaque]
pub open spec fn keeps(slots: SlotsView, model: DMIView, kind: StructureType) -> bool {
    match kind {
        StructureType::Firmware => slots.firmware is Some && without_languages(
            slots.firmware->0,
        ) == without_languages(model.firmware),
        StructureType::System => slots.system == Some(model.system),
        StructureType::Baseboard => slots.baseboard == Some(model.baseboard),
        StructureType::Chassis => slots.chassis == Some(model.chassis),
        StructureType::PhysicalMemoryArray => slots.memory == Some(model.memory),
        StructureType::Battery => slots.battery == Some(model.battery),
        _ => true,
    }
}

proof fn lemma_finished_keeps(slots: SlotsView, kind: StructureType, model: DMIView)
    requires
        slots.finished() == Ok::<DMIView, DecodeError>(model),
    ensures
        keeps(slots, model, kind),
{
    reveal(keeps);
}

proof fn lemma_with_keeps_others(
    slots: SlotsView,
    record: Record,
    kind: StructureType,
    model: DMIView,
)
    requires
        record.structure_type() != kind,
        keeps(
            slots.with(record.structure_type(), record.body, table_text(record.strings)),
            model,
            kind,
        ),
    ensures
        keeps(slots, model, kind),
{
    reveal(keeps);
    reveal(SlotsView::with);
}

proof fn lemma_with_shows(slots: SlotsView, record: Record, model: DMIView)
    requires
        is_mandatory(record.structure_type()),
        keeps(
            slots.with(record.structure_type(), record.body, table_text(record.strings)),
            model,
            record.structure_type(),
        ),
    ensures
        shows(model, record),
{
    reveal(keeps);
    reveal(shows);
    reveal(SlotsView::with);
}

proof fn lemma_folded_step(records: Seq<Record>, slots: SlotsView, model: DMIView)
    requires
        records.len() > 0,
        folded(records, slots) == Ok::<DMIView, DecodeError>(model),
    ensures
        folded(
            records.drop_first(),
            slots.with(records[0].structure_type(), records[0].body, table_text(records[0].strings)),
        ) == Ok::<DMIView, DecodeError>(model),
{
}

proof fn lemma_occurs_in_rest(records: Seq<Record>, kind: StructureType)
    requires
        records.len() > 0,
    ensures
        occurs(records, kind) <==> records[0].structure_type() == kind || occurs(
            records.drop_first(),
            kind,
        ),
{
    let rest = records.drop_first();
    if occurs(records, kind) {
        let i = choose|i: int|
            0 <= i < records.len() && (#[trigger] records[i]).structure_type() == kind;
        if i != 0 {
            assert(rest[i - 1] == records[i]);
        }
    }
    if occurs(rest, kind) {
        let i = choose|i: int| 0 <= i < rest.len() && (#[trigger] rest[i]).structure_type() == kind;
        assert(rest[i] == records[i + 1]);
    }
}

proof fn lemma_folded_keeps(
    records: Seq<Record>,
    slots: SlotsView,
    kind: StructureType,
    model: DMIView,
)
    requires
        folded(records, slots) == Ok::<DMIView, DecodeError>(model),
        !occurs(records, kind),
    ensures
        keeps(slots, model, kind),
    decreases records.len(),
{
    if records.len() == 0 {
        lemma_finished_keeps(slots, kind, model);
    } else {
        let record = records[0];
        let rest = records.drop_first();
        let filled = slots.with(record.structure_type(), record.body, table_text(record.strings));
        lemma_occurs_in_rest(records, kind);
        lemma_folded_step(records, slots, model);
        lemma_folded_keeps(rest, filled, kind, model);
        lemma_with_keeps_others(slots, record, kind, model);
    }
}

/// Whether `records[i]` is the last record of its kind, and the model's
/// record of that kind is what it decodes to.
pub open spec fn is_shown_last(records: Seq<Record>, kind: StructureType, model: DMIView, i: int)
    -> bool {
    &&& 0 <= i < records.len()
    &&& records[i].structure_type() == kind
    &&& shows(model, records[i])
    &&& forall|j: int| i < j < records.len() ==> (#[trigger] records[j]).structure_type() != kind
}

/// The last record of a kind wins: where a table decodes to a model, the
/// model's record of each mandatory kind is what the last record of that
/// kind in the table decodes to.
pub proof fn lemma_last_record_wins(
    records: Seq<Record>,
    slots: SlotsView,
    kind: StructureType,
    model: DMIView,
)
    requires
        is_mandatory(kind),
        occurs(records, kind),
        folded(records, slots) == Ok::<DMIView, DecodeError>(model),
    ensures
        exists|i: int| is_shown_last(records, kind, model, i),
    decreases records.len(),
{
    let record = records[0];
    let rest = records.drop_first();
    let filled = slots.with(record.structure_type(), record.body, table_text(record.strings));
    lemma_occurs_in_rest(records, kind);
    lemma_folded_step(records, slots, model);
    if occurs(rest, kind) {
        lemma_last_record_wins(rest, filled, kind, model);
        let i = choose|i: int| is_shown_last(rest, kind, model, i);
        assert(rest[i] == records[i + 1]);
        assert forall|j: int| i + 1 < j < records.len() implies (#[trigger] records[j]).structure_type()
            != kind by {
            assert(rest[j - 1] == records[j]);
        }
        assert(is_shown_last(records, kind, model, i + 1));
    } else {
        lemma_folded_keeps(rest, filled, kind, model);
        lemma_with_shows(slots, record, model);
        assert forall|j: int| 0 < j < records.len() implies (#[trigger] records[j]).structure_type()
            != kind by {
            assert(rest[j - 1] == records[j]);
        }
        assert(is_shown_last(records, kind, model, 0));
    }
}

} // verus!
