//! How records lie in the table: a four-byte header, a body whose length the
//! header gives, and a string table that ends by its own rule.

use crate::bytes::{be16, read_be16};
use crate::text::{decode_lossy, text_of, texts};
use vstd::prelude::*;
use vstd::slice::slice_subrange;
use vstd::utf8::{decode_utf8, valid_utf8};

verus! {

/// What a record describes, by the first byte of its header.
#[derive(Clone, Copy, Debug, PartialEq, Eq, Structural)]
pub enum StructureType {
    Firmware,
    System,
    Baseboard,
    Chassis,
    FirmwareLanguage,
    PhysicalMemoryArray,
    Battery,
    End,
    Other,
}

impl StructureType {
    /// The structure type that a code stands for.
    pub open spec fn of(code: u8) -> StructureType {
        match code {
            0 => StructureType::Firmware,
            1 => StructureType::System,
            2 => StructureType::Baseboard,
            3 => StructureType::Chassis,
            13 => StructureType::FirmwareLanguage,
            16 => StructureType::PhysicalMemoryArray,
            22 => StructureType::Battery,
            127 => StructureType::End,
            _ => StructureType::Other,
        }
    }

    pub fn from_code(code: u8) -> (r: StructureType)
        ensures
            r == StructureType::of(code),
    {
        match code {
            0 => StructureType::Firmware,
            1 => StructureType::System,
            2 => StructureType::Baseboard,
            3 => StructureType::Chassis,
            13 => StructureType::FirmwareLanguage,
            16 => StructureType::PhysicalMemoryArray,
            22 => StructureType::Battery,
            127 => StructureType::End,
            _ => StructureType::Other,
        }
    }
}

/// The header of a record. `length` counts the header's own four bytes.
#[derive(Clone, Copy, Debug, PartialEq, Eq, Structural)]
pub struct Header {
    pub structure_type: StructureType,
    pub length: u8,
    pub handle: u16,
}

impl Header {
    /// The header that four bytes hold: type, length, and the handle with
    /// its high byte first.
    pub open spec fn of(value: Seq<u8>) -> Header {
        Header {
            structure_type: StructureType::of(value[0]),
            length: value[1],
            handle: be16(value[2], value[3]) as u16,
        }
    }
}

impl From<[u8; 4]> for Header {
    fn from(value: [u8; 4]) -> (r: Self) {
        Header {
            structure_type: StructureType::from_code(value[0]),
            length: value[1],
            handle: read_be16(value[2], value[3]),
        }
    }
}

impl vstd::std_specs::convert::FromSpecImpl<[u8; 4]> for Header {
    open spec fn obeys_from_spec() -> bool {
        true
    }

    open spec fn from_spec(value: [u8; 4]) -> Self {
        Header::of(value@)
    }
}

/// Why a table could not be decoded.
#[derive(Clone, Copy, Debug, PartialEq, Eq, Structural)]
pub enum DecodeError {
    /// The source ended inside a header, a body or a string table.
    UnexpectedEof,
    /// A header declares a length that does not even cover the header.
    InvalidLength,
    /// A record of a known kind cannot be decoded: its body is too short
    /// for its kind, or a field of it holds a value without meaning.
    MalformedRecord(StructureType),
    /// The table ended without a record of this kind.
    MissingMandatoryRecord(StructureType),
}

/// The position of the first NUL at or behind `from`, or the length of
/// `bytes` where there is none.
pub open spec fn nul_from(bytes: Seq<u8>, from: int) -> int
    decreases bytes.len() - from,
{
    if from < 0 || from >= bytes.len() {
        bytes.len() as int
    } else if bytes[from] == 0 {
        from
    } else {
        nul_from(bytes, from + 1)
    }
}

/// What [`nul_from`] finds lies at or behind `from`, is a NUL where it lies
/// inside the bytes, and has no NUL before it.
pub proof fn lemma_nul_from(bytes: Seq<u8>, from: int)
    requires
        0 <= from <= bytes.len(),
    ensures
        from <= nul_from(bytes, from) <= bytes.len(),
        nul_from(bytes, from) < bytes.len() ==> bytes[nul_from(bytes, from)] == 0,
        forall|k: int| from <= k < nul_from(bytes, from) ==> bytes[k] != 0,
    decreases bytes.len() - from,
{
    if from < bytes.len() && bytes[from] != 0 {
        lemma_nul_from(bytes, from + 1);
    }
}

/// The string table that starts at `from`, and where it ends. The table is
/// read run by run, a run being the bytes up to and including the next NUL,
/// with two things remembered: whether a bare NUL was seen, and whether a
/// string was.
///
/// - A bare NUL ends the table if either was seen before; otherwise it is
///   remembered and reading goes on.
/// - A longer run is a string: it joins the table without its NUL.
///
/// Nothing is returned where the bytes end before the table does.
pub open spec fn strings_from(bytes: Seq<u8>, from: int, seen_zero: bool, seen_string: bool)
    -> Option<(Seq<Seq<u8>>, int)>
    decreases bytes.len() - from,
{
    let nul = nul_from(bytes, from);
    if from < 0 || nul >= bytes.len() {
        None
    } else if nul == from {
        if seen_zero || seen_string {
            Some((Seq::empty(), from + 1))
        } else {
            strings_from(bytes, from + 1, true, seen_string)
        }
    } else {
        proof {
            lemma_nul_from(bytes, from);
        }
        match strings_from(bytes, nul + 1, seen_zero, true) {
            Some((rest, end)) => Some((seq![bytes.subrange(from, nul)] + rest, end)),
            None => None,
        }
    }
}

/// A string table ends behind where it starts, and inside the bytes.
pub proof fn lemma_strings_from(bytes: Seq<u8>, from: int, seen_zero: bool, seen_string: bool)
    requires
        0 <= from,
    ensures
        strings_from(bytes, from, seen_zero, seen_string) matches Some((_, end)) ==> from < end
            <= bytes.len(),
    decreases bytes.len() - from,
{
    let nul = nul_from(bytes, from);
    if from <= bytes.len() {
        lemma_nul_from(bytes, from);
    }
    if nul < bytes.len() {
        if nul == from {
            if !(seen_zero || seen_string) {
                lemma_strings_from(bytes, from + 1, true, seen_string);
            }
        } else {
            lemma_strings_from(bytes, nul + 1, seen_zero, true);
        }
    }
}

/// A record as it was framed: what its header says, its body, its string
/// table as text, and where the next record starts.
pub struct FrameView {
    pub header: Header,
    pub body: Seq<u8>,
    pub table: Seq<Seq<char>>,
    pub next: int,
}

/// The text of each string of a table: strings that are well-formed UTF-8
/// as the characters that they encode, the others decoded permissively.
pub open spec fn table_text(strings: Seq<Seq<u8>>) -> Seq<Seq<char>> {
    strings.map_values(|s: Seq<u8>| text_of(s))
}

/// The record that starts at `at`: nothing where the header there marks the
/// end of the table, else the record, or the reason why it cannot be had.
/// Of an end marker only the header is read.
pub open spec fn frame_at(bytes: Seq<u8>, at: int) -> Result<Option<FrameView>, DecodeError> {
    let header = Header::of(bytes.subrange(at, at + 4));
    if at + 4 > bytes.len() {
        Err(DecodeError::UnexpectedEof)
    } else if header.structure_type == StructureType::End {
        Ok(None)
    } else if header.length < 4 {
        Err(DecodeError::InvalidLength)
    } else if at + header.length > bytes.len() {
        Err(DecodeError::UnexpectedEof)
    } else {
        match strings_from(bytes, at + header.length, false, false) {
            Some((strings, next)) => Ok(
                Some(
                    FrameView {
                        header,
                        body: bytes.subrange(at + 4, at + header.length),
                        table: table_text(strings),
                        next,
                    },
                ),
            ),
            None => Err(DecodeError::UnexpectedEof),
        }
    }
}

/// A framed record. The body is borrowed from the source.
#[derive(Debug)]
pub struct Frame<'a> {
    pub header: Header,
    pub body: &'a [u8],
    pub text: Vec<String>,
    pub next: usize,
}

impl<'a> View for Frame<'a> {
    type V = FrameView;

    open spec fn view(&self) -> FrameView {
        FrameView {
            header: self.header,
            body: self.body@,
            table: texts(self.text@),
            next: self.next as int,
        }
    }
}

fn find_nul(source: &[u8], from: usize) -> (nul: usize)
    requires
        from <= source.len(),
    ensures
        nul == nul_from(source@, from as int),
{
    let mut nul = from;
    while nul < source.len() && source[nul] != 0
        invariant
            from <= nul <= source.len(),
            nul_from(source@, from as int) == nul_from(source@, nul as int),
        decreases source.len() - nul,
    {
        nul = nul + 1;
    }
    nul
}

/// The result of [`strings_from`] with `read` put in front of the strings.
pub open spec fn after(read: Seq<Seq<u8>>, rest: Option<(Seq<Seq<u8>>, int)>) -> Option<
    (Seq<Seq<u8>>, int),
> {
    match rest {
        Some((strings, end)) => Some((read + strings, end)),
        None => None,
    }
}

/// Whether every string that is well-formed UTF-8 stands in the text as the
/// characters that it encodes.
pub open spec fn keeps_valid_text(strings: Seq<Seq<u8>>, text: Seq<Seq<char>>) -> bool {
    forall|i: int|
        0 <= i < strings.len() && i < text.len() && valid_utf8(#[trigger] strings[i]) ==> text[i]
            == decode_utf8(strings[i])
}

/// The text of a table keeps every string that is well-formed UTF-8 as the
/// characters that it encodes.
pub proof fn lemma_table_text_keeps_valid_text(strings: Seq<Seq<u8>>)
    ensures
        keeps_valid_text(strings, table_text(strings)),
{
}

/// Reads the string table that starts at `from`. Returns its strings as text
/// and the position behind it, or nothing where the source ends first.
/// Strings that are not well-formed UTF-8 are decoded with replacement
/// characters; they never make the reading fail.
pub fn read_strings(source: &[u8], from: usize) -> (r: Option<(Vec<String>, usize)>)
    ensures
        match r {
            Some((text, end)) => strings_from(source@, from as int, false, false) matches Some(
                (strings, e),
            ) && texts(text@) == table_text(strings) && end == e && keeps_valid_text(
                strings,
                texts(text@),
            ),
            None => strings_from(source@, from as int, false, false) is None,
        },
{
    if from > source.len() {
        return None;
    }
    let mut text: Vec<String> = Vec::new();
    let ghost mut read: Seq<Seq<u8>> = Seq::empty();
    let mut at = from;
    let mut previous_read_zero = false;
    let mut previous_read_string = false;
    assert(texts(text@) =~= table_text(read));
    assert(after(read, strings_from(source@, at as int, false, false)) =~= strings_from(
        source@,
        from as int,
        false,
        false,
    )) by {
        let rest = strings_from(source@, at as int, false, false);
        if rest is Some {
            assert(read + rest.unwrap().0 =~= rest.unwrap().0);
        }
    }
    loop
        invariant
            from <= at <= source.len(),
            texts(text@) == table_text(read),
            keeps_valid_text(read, texts(text@)),
            after(
                read,
                strings_from(source@, at as int, previous_read_zero, previous_read_string),
            ) == strings_from(source@, from as int, false, false),
        decreases source.len() - at,
    {
        let nul = find_nul(source, at);
        proof {
            lemma_nul_from(source@, at as int);
        }
        if nul >= source.len() {
            return None;
        }
        if nul == at {
            if previous_read_zero || previous_read_string {
                proof {
                    assert(read + Seq::<Seq<u8>>::empty() =~= read);
                }
                return Some((text, at + 1));
            }
            previous_read_zero = true;
            at = at + 1;
        } else {
            let run = slice_subrange(source, at, nul);
            let ghost rest = strings_from(source@, nul + 1, previous_read_zero, true);
            proof {
                if rest is Some {
                    assert(read + (seq![run@] + rest.unwrap().0) =~= read.push(run@) + rest.unwrap().0);
                }
                assert(table_text(read.push(run@)) =~= table_text(read).push(text_of(run@)));
            }
            let entry = decode_lossy(run);
            text.push(entry);
            proof {
                let ghost before = read;
                read = read.push(run@);
                assert(texts(text@) =~= table_text(read));
                assert forall|i: int|
                    0 <= i < read.len() && i < texts(text@).len() && valid_utf8(
                        #[trigger] read[i],
                    ) implies texts(text@)[i] == decode_utf8(read[i]) by {
                    if i < before.len() {
                        assert(read[i] == before[i]);
                        assert(texts(text@)[i] == table_text(before)[i]);
                    }
                }
            }
            previous_read_string = true;
            at = nul + 1;
        }
    }
}

/// Frames the record that starts at `at`.
pub fn next_frame<'a>(source: &'a [u8], at: usize) -> (r: Result<Option<Frame<'a>>, DecodeError>)
    ensures
        match r {
            Ok(Some(frame)) => {
                &&& frame_at(source@, at as int) == Ok::<Option<FrameView>, DecodeError>(
                    Some(frame@),
                )
                &&& at < frame.next <= source.len()
                &&& strings_from(source@, at + frame.header.length, false, false) matches Some(
                    (strings, _),
                ) && keeps_valid_text(strings, texts(frame.text@))
            },
            Ok(None) => frame_at(source@, at as int) == Ok::<Option<FrameView>, DecodeError>(None),
            Err(e) => frame_at(source@, at as int) == Err::<Option<FrameView>, DecodeError>(e),
        },
{
    if at > source.len() || source.len() - at < 4 {
        return Err(DecodeError::UnexpectedEof);
    }
    let header = Header::from([source[at], source[at + 1], source[at + 2], source[at + 3]]);
    assert(header == Header::of(source@.subrange(at as int, at + 4)));
    if header.structure_type == StructureType::End {
        return Ok(None);
    }
    if header.length < 4 {
        return Err(DecodeError::InvalidLength);
    }
    let length = header.length as usize;
    if source.len() - at < length {
        return Err(DecodeError::UnexpectedEof);
    }
    let body = slice_subrange(source, at + 4, at + length);
    proof {
        lemma_strings_from(source@, at + length, false, false);
    }
    match read_strings(source, at + length) {
        Some((text, next)) => Ok(Some(Frame { header, body, text, next })),
        None => Err(DecodeError::UnexpectedEof),
    }
}

} // verus!
