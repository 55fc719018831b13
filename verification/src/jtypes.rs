//! The fixed-shape records that cross the boundary: texts, byte buffers,
//! batches of byte buffers and device descriptors.
//!
//! On the wire each of them is a length and an address. Here each holds the
//! bytes themselves, so that what the host may read is a plain value.

use vstd::prelude::*;
use vstd::utf8::{decode_utf8, encode_utf8, valid_utf8};
use crate::error::BridgeError;
use crate::text::decode_text;
use crate::wire::copy_range;

verus! {

/// The number of rows of a batch, whether used or not.
pub const BATCH_CAPACITY: usize = 32;

/// The index that a descriptor carries when no device matched.
pub const DEVICE_NOT_FOUND: u32 = 99;

/// A text that the host hands in as a length and UTF-8 bytes.
#[derive(Debug, PartialEq, Eq)]
pub struct JPString {
    pub bytes: Vec<u8>,
}

impl View for JPString {
    type V = Seq<u8>;

    open spec fn view(&self) -> Seq<u8> {
        self.bytes@
    }
}

impl JPString {
    /// Takes over the bytes that the host designated.
    pub fn new(bytes: Vec<u8>) -> (text: Self)
        ensures
            text@ == bytes@,
    {
        JPString { bytes }
    }

    /// The text that the bytes spell.
    ///
    /// Fails with `InvalidText` exactly where the bytes are not UTF-8.
    pub fn to_string(&self) -> (text: Result<String, BridgeError>)
        ensures
            text is Ok <==> valid_utf8(self@),
            text matches Ok(s) ==> s@ == decode_utf8(self@),
            text matches Err(e) ==> e == BridgeError::InvalidText,
    {
        let copy = copy_range(self.bytes.as_slice(), 0, self.bytes.len());
        assert(copy@ =~= self@);
        match decode_text(copy) {
            Some(s) => Ok(s),
            None => Err(BridgeError::InvalidText),
        }
    }
}

/// A text that the bridge hands out as a length and UTF-8 bytes.
#[derive(Clone, Debug, PartialEq, Eq)]
pub struct RString {
    pub text: String,
}

impl View for RString {
    type V = Seq<char>;

    open spec fn view(&self) -> Seq<char> {
        self.text@
    }
}

impl RString {
    /// The bytes that the host reads.
    pub open spec fn bytes(&self) -> Seq<u8> {
        encode_utf8(self@)
    }

    /// Wraps a text for the host.
    pub fn from_string(src: String) -> (wrapped: Self)
        ensures
            wrapped@ == src@,
    {
        RString { text: src }
    }

    /// The length that the host is told: the number of UTF-8 bytes.
    pub fn len(&self) -> (len: usize)
        ensures
            len == self.bytes().len(),
    {
        self.text.as_str().as_bytes().len()
    }

    /// The bytes that the host reads.
    pub fn as_bytes(&self) -> (bytes: &[u8])
        ensures
            bytes@ == self.bytes(),
    {
        self.text.as_str().as_bytes()
    }
}

/// A byte buffer that the bridge hands out; the host owns it from then on.
#[derive(Clone, Debug, PartialEq, Eq)]
pub struct JArrayByte {
    pub data: Vec<u8>,
}

impl View for JArrayByte {
    type V = Seq<u8>;

    open spec fn view(&self) -> Seq<u8> {
        self.data@
    }
}

impl JArrayByte {
    /// Takes ownership of the bytes to hand out.
    pub fn new(vector: Vec<u8>) -> (buffer: Self)
        ensures
            buffer@ == vector@,
    {
        JArrayByte { data: vector }
    }

    /// The length that the host is told.
    pub fn len(&self) -> (len: usize)
        ensures
            len == self@.len(),
    {
        self.data.len()
    }
}

/// A byte buffer that the host hands in: valid only during the call, so its
/// bytes are copied on arrival.
#[derive(Clone, Debug, PartialEq, Eq)]
pub struct JByteArray {
    pub data: Vec<u8>,
}

impl View for JByteArray {
    type V = Seq<u8>;

    open spec fn view(&self) -> Seq<u8> {
        self.data@
    }
}

impl JByteArray {
    /// A buffer over the given bytes.
    pub fn new(vector: Vec<u8>) -> (buffer: Self)
        ensures
            buffer@ == vector@,
    {
        JByteArray { data: vector }
    }

    /// An owned copy of the bytes.
    pub fn to_vec_u8(&self) -> (copy: Vec<u8>)
        ensures
            copy@ == self@,
    {
        let copy = copy_range(self.data.as_slice(), 0, self.data.len());
        assert(copy@ =~= self@);
        copy
    }

    /// The buffer without bytes, used as a placeholder.
    pub fn empty() -> (buffer: Self)
        ensures
            buffer@ == Seq::<u8>::empty(),
    {
        JByteArray { data: Vec::new() }
    }

    /// Copies the first `len` bytes of the designated region.
    pub fn from_data(data: &[u8], len: usize) -> (buffer: Self)
        requires
            len <= data@.len(),
        ensures
            buffer@ == data@.subrange(0, len as int),
    {
        JByteArray { data: copy_range(data, 0, len) }
    }

    /// The number of bytes.
    pub fn len(&self) -> (len: usize)
        ensures
            len == self@.len(),
    {
        self.data.len()
    }
}

/// One connectivity candidate, opaque to the bridge.
#[derive(Clone, Debug, PartialEq, Eq)]
pub struct IceCandidate {
    pub opaque: Vec<u8>,
}

impl View for IceCandidate {
    type V = Seq<u8>;

    open spec fn view(&self) -> Seq<u8> {
        self.opaque@
    }
}

impl IceCandidate {
    pub fn new(opaque: Vec<u8>) -> (candidate: Self)
        ensures
            candidate@ == opaque@,
    {
        IceCandidate { opaque }
    }
}

/// The candidates of a list, each as its bytes.
pub open spec fn candidate_views(candidates: Seq<IceCandidate>) -> Seq<Seq<u8>> {
    Seq::new(candidates.len(), |i: int| candidates[i]@)
}

/// A batch of byte buffers in one record: a row count and `BATCH_CAPACITY`
/// rows, of which the rows from the count on are empty placeholders.
#[derive(Debug, PartialEq, Eq)]
pub struct JByteArray2D {
    len: usize,
    buff: Vec<JByteArray>,
}

impl View for JByteArray2D {
    type V = Seq<Seq<u8>>;

    /// The rows that carry data, in order.
    open spec fn view(&self) -> Seq<Seq<u8>> {
        self.slots().take(self.spec_len() as int)
    }
}

impl JByteArray2D {
    #[verifier::type_invariant]
    spec fn well_formed(self) -> bool {
        &&& self.buff@.len() == BATCH_CAPACITY
        &&& self.len <= BATCH_CAPACITY
        &&& forall|i: int| self.len <= i < BATCH_CAPACITY ==> (#[trigger] self.buff@[i])@.len() == 0
    }

    /// The row count of the record.
    pub closed spec fn spec_len(&self) -> nat {
        self.len as nat
    }

    /// All rows of the record, placeholders included.
    pub closed spec fn slots(&self) -> Seq<Seq<u8>> {
        Seq::new(self.buff@.len(), |i: int| self.buff@[i]@)
    }

    /// Checks a row count announced by the host before any row is read.
    ///
    /// Fails with `CapacityExceeded` exactly where the count is larger than
    /// the record has rows.
    pub fn row_count(announced: usize) -> (count: Result<usize, BridgeError>)
        ensures
            count is Ok <==> announced <= BATCH_CAPACITY,
            count matches Ok(n) ==> n == announced,
            count matches Err(e) ==> e == BridgeError::CapacityExceeded,
    {
        if announced <= BATCH_CAPACITY {
            Ok(announced)
        } else {
            Err(BridgeError::CapacityExceeded)
        }
    }

    /// Lays the candidates out as a batch: one row each, in order, and empty
    /// placeholders in the rows that are left.
    ///
    /// Fails with `CapacityExceeded` exactly where there are more candidates
    /// than rows.
    pub fn new(vector: Vec<IceCandidate>) -> (batch: Result<Self, BridgeError>)
        ensures
            batch is Ok <==> vector@.len() <= BATCH_CAPACITY,
            batch matches Ok(b) ==> {
                &&& b.spec_len() == vector@.len()
                &&& b.slots().len() == BATCH_CAPACITY
                &&& b@ == candidate_views(vector@)
                &&& forall|i: int|
                    vector@.len() <= i < BATCH_CAPACITY ==> (#[trigger] b.slots()[i]).len() == 0
            },
            batch matches Err(e) ==> e == BridgeError::CapacityExceeded,
    {
        let vlen: usize = vector.len();
        if vlen > BATCH_CAPACITY {
            return Err(BridgeError::CapacityExceeded);
        }
        let mut rows: Vec<JByteArray> = Vec::new();
        let mut i: usize = 0;
        while i < BATCH_CAPACITY
            invariant
                i <= BATCH_CAPACITY,
                vlen == vector@.len(),
                vlen <= BATCH_CAPACITY,
                rows@.len() == i,
                forall|j: int| 0 <= j < i && j < vlen ==> (#[trigger] rows@[j])@ == vector@[j]@,
                forall|j: int| vlen <= j < i ==> (#[trigger] rows@[j])@.len() == 0,
            decreases BATCH_CAPACITY - i,
        {
            if i < vlen {
                let opaque = &vector[i].opaque;
                rows.push(JByteArray::from_data(opaque.as_slice(), opaque.len()));
                assert(opaque@.subrange(0, opaque@.len() as int) =~= opaque@);
            } else {
                rows.push(JByteArray::new(Vec::new()));
            }
            i = i + 1;
        }
        let b = JByteArray2D { len: vlen, buff: rows };
        assert(b@ =~= candidate_views(vector@));
        Ok(b)
    }

    /// The row count of the record.
    pub fn len(&self) -> (len: usize)
        ensures
            len == self.spec_len(),
            len <= BATCH_CAPACITY,
            self.slots().len() == BATCH_CAPACITY,
            self@.len() == len,
    {
        proof {
            use_type_invariant(self);
        }
        self.len
    }

    /// One row of the record; from the row count on, an empty placeholder.
    pub fn row(&self, index: usize) -> (row: &JByteArray)
        requires
            index < BATCH_CAPACITY,
        ensures
            self.slots().len() == BATCH_CAPACITY,
            row@ == self.slots()[index as int],
            index >= self.spec_len() ==> row@.len() == 0,
    {
        proof {
            use_type_invariant(self);
        }
        &self.buff[index]
    }

    /// The rows that carry data, each as a candidate, in order.
    pub fn candidates(&self) -> (list: Vec<IceCandidate>)
        ensures
            candidate_views(list@) == self@,
    {
        proof {
            use_type_invariant(self);
        }
        let mut list: Vec<IceCandidate> = Vec::new();
        let mut j: usize = 0;
        while j < self.len
            invariant
                j <= self.len <= BATCH_CAPACITY,
                self.buff@.len() == BATCH_CAPACITY,
                list@.len() == j,
                forall|k: int| 0 <= k < j ==> (#[trigger] list@[k])@ == self.buff@[k]@,
            decreases self.len - j,
        {
            list.push(IceCandidate::new(self.buff[j].to_vec_u8()));
            j = j + 1;
        }
        assert(candidate_views(list@) =~= self@);
        list
    }

    /// The rows that carry data, each as a text, in order.
    ///
    /// Fails with `InvalidText` exactly where one of those rows is not UTF-8.
    pub fn texts(&self) -> (list: Result<Vec<String>, BridgeError>)
        ensures
            list is Ok <==> forall|k: int| 0 <= k < self@.len() ==> valid_utf8(#[trigger] self@[k]),
            list matches Ok(v) ==> {
                &&& v@.len() == self@.len()
                &&& forall|k: int| 0 <= k < v@.len() ==> (#[trigger] v@[k])@ == decode_utf8(self@[k])
            },
            list matches Err(e) ==> e == BridgeError::InvalidText,
    {
        proof {
            use_type_invariant(self);
        }
        let mut list: Vec<String> = Vec::new();
        let mut j: usize = 0;
        while j < self.len
            invariant
                j <= self.len <= BATCH_CAPACITY,
                self.buff@.len() == BATCH_CAPACITY,
                list@.len() == j,
                forall|k: int| 0 <= k < j ==> valid_utf8(#[trigger] self@[k]),
                forall|k: int| 0 <= k < j ==> (#[trigger] list@[k])@ == decode_utf8(self@[k]),
            decreases self.len - j,
        {
            let row = self.buff[j].to_vec_u8();
            assert(row@ == self@[j as int]);
            match decode_text(row) {
                Some(text) => {
                    list.push(text);
                },
                None => {
                    return Err(BridgeError::InvalidText);
                },
            }
            j = j + 1;
        }
        Ok(list)
    }
}

/// One audio device as the media layer lists it.
#[derive(Clone, Debug, PartialEq, Eq)]
pub struct AudioDevice {
    pub name: String,
    pub unique_id: String,
    pub i18n_key: String,
}

/// The descriptor of one audio device as the host receives it.
#[derive(Clone, Debug, PartialEq, Eq)]
pub struct TringDevice {
    pub index: u32,
    pub name: RString,
    pub unique_id: RString,
    pub int_key: RString,
}

impl TringDevice {
    /// The descriptor that answers a request no device matched: the index
    /// `DEVICE_NOT_FOUND` and the text "empty" in every field.
    pub open spec fn is_sentinel(&self) -> bool {
        &&& self.index == DEVICE_NOT_FOUND
        &&& self.name@ == "empty"@
        &&& self.unique_id@ == "empty"@
        &&& self.int_key@ == "empty"@
    }

    /// The descriptor that carries exactly the given position and texts.
    pub open spec fn describes(
        &self,
        index: u32,
        name: Seq<char>,
        unique_id: Seq<char>,
        i18n_key: Seq<char>,
    ) -> bool {
        &&& self.index == index
        &&& self.name@ == name
        &&& self.unique_id@ == unique_id
        &&& self.int_key@ == i18n_key
    }

    /// The sentinel descriptor.
    pub fn empty() -> (device: Self)
        ensures
            device.is_sentinel(),
    {
        let name = RString::from_string("empty".to_owned());
        let unique_id = RString::from_string("empty".to_owned());
        let int_key = RString::from_string("empty".to_owned());
        Self { index: 99, name: name, unique_id: unique_id, int_key: int_key }
    }

    /// The descriptor of a listed device at the given position.
    pub fn from_audio_device(index: u32, src: AudioDevice) -> (device: Self)
        ensures
            device.describes(index, src.name@, src.unique_id@, src.i18n_key@),
    {
        let src_name = RString::from_string(src.name);
        let src_unique_id = RString::from_string(src.unique_id);
        let src_int_key = RString::from_string(src.i18n_key);
        Self { index: index, name: src_name, unique_id: src_unique_id, int_key: src_int_key }
    }

    /// The descriptor with the given position and texts.
    pub fn from_fields(
        index: u32,
        src_name: String,
        src_unique_id: String,
        src_i18n_key: String,
    ) -> (device: Self)
        ensures
            device.describes(index, src_name@, src_unique_id@, src_i18n_key@),
    {
        let src_name = RString::from_string(src_name);
        let src_unique_id = RString::from_string(src_unique_id);
        let src_int_key = RString::from_string(src_i18n_key);
        Self { index: index, name: src_name, unique_id: src_unique_id, int_key: src_int_key }
    }

    /// Whether this is the sentinel position, which callers read as
    /// "not found".
    pub fn is_not_found(&self) -> (missing: bool)
        ensures
            missing == (self.index == DEVICE_NOT_FOUND),
    {
        self.index == DEVICE_NOT_FOUND
    }
}

/// The descriptor of the device listed at position `idx`, or the sentinel
/// where the list has no such position.
pub fn device_at(devices: &Vec<AudioDevice>, idx: u32) -> (device: TringDevice)
    ensures
        idx < devices@.len() ==> device.describes(
            idx,
            devices@[idx as int].name@,
            devices@[idx as int].unique_id@,
            devices@[idx as int].i18n_key@,
        ),
        idx >= devices@.len() ==> device.is_sentinel(),
{
    if (idx as usize) < devices.len() {
        let listed = &devices[idx as usize];
        TringDevice::from_fields(
            idx,
            listed.name.clone(),
            listed.unique_id.clone(),
            listed.i18n_key.clone(),
        )
    } else {
        TringDevice::empty()
    }
}

} // verus!
