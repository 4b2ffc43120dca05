//! Byte items (keys and values) and modifications of stored values.

use vstd::prelude::*;
use vstd::slice::slice_to_vec;
use vstd::utf8::{decode_utf8, encode_utf8, valid_utf8};

verus! {

/// The UTF-8 text of `bytes`, when they are UTF-8.
#[verifier::external_body]
fn utf8_str(bytes: &[u8]) -> (r: Option<&str>)
    ensures
        r is Some <==> valid_utf8(bytes@),
        r matches Some(s) ==> encode_utf8(s@) == bytes@,
{
    std::str::from_utf8(bytes).ok()
}

/// A raw data item: the bytes of a key or a value.
#[derive(Debug)]
pub struct Item {
    data: Vec<u8>,
}

impl View for Item {
    type V = Seq<u8>;

    closed spec fn view(&self) -> Seq<u8> {
        self.data@
    }
}

impl Item {
    /// An empty item.
    pub fn new() -> (item: Item)
        ensures
            item@ == Seq::<u8>::empty(),
    {
        Item { data: Vec::new() }
    }

    /// An item holding a copy of `data`.
    pub fn from_bytes(data: &[u8]) -> (item: Item)
        ensures
            item@ == data@,
    {
        Item { data: slice_to_vec(data) }
    }

    /// An item holding the UTF-8 bytes of `s`.
    pub fn from_str(s: &str) -> (item: Item)
        ensures
            item@ == encode_utf8(s@),
    {
        Item { data: slice_to_vec(s.as_bytes()) }
    }

    /// An item that takes ownership of `data`.
    pub fn from_vec(data: Vec<u8>) -> (item: Item)
        ensures
            item@ == data@,
    {
        Item { data }
    }

    /// An item holding a copy of the bytes that the engine handed back;
    /// `None` stands for a null data pointer, which gives an empty item.
    pub fn from_raw(data: Option<&[u8]>) -> (item: Item)
        ensures
            item@ == match data {
                Some(b) => b@,
                None => Seq::<u8>::empty(),
            },
    {
        match data {
            Some(b) => Item::from_bytes(b),
            None => Item::new(),
        }
    }

    /// The bytes of the item.
    pub fn as_bytes(&self) -> (b: &[u8])
        ensures
            b@ == self@,
    {
        self.data.as_slice()
    }

    /// The item as text, when its bytes are UTF-8.
    pub fn as_str(&self) -> (r: Option<&str>)
        ensures
            r is Some <==> valid_utf8(self@),
            r matches Some(s) ==> s@ == decode_utf8(self@),
    {
        let r = utf8_str(self.data.as_slice());
        proof {
            if let Some(s) = r {
                vstd::utf8::encode_utf8_decode_utf8(s@);
            }
        }
        r
    }

    /// The number of bytes in the item.
    pub fn len(&self) -> (n: usize)
        ensures
            n == self@.len(),
    {
        self.data.len()
    }

    /// Whether the item holds no bytes.
    pub fn is_empty(&self) -> (b: bool)
        ensures
            b == (self@.len() == 0),
    {
        self.data.len() == 0
    }
}

impl Clone for Item {
    fn clone(&self) -> (item: Item)
        ensures
            item@ == self@,
    {
        Item::from_bytes(self.data.as_slice())
    }
}

impl Default for Item {
    fn default() -> (item: Item)
        ensures
            item@ == Seq::<u8>::empty(),
    {
        Item::new()
    }
}

// Each `From` conversion states its result by the item's bytes, in its own
// `ensures`. Two items with the same bytes are not known to be one and the
// same value, so the conversions do not claim to give the one item that a
// `from_spec` would name.
impl From<&[u8]> for Item {
    fn from(data: &[u8]) -> (item: Item)
        ensures
            item@ == data@,
    {
        Item::from_bytes(data)
    }
}

impl vstd::std_specs::convert::FromSpecImpl<&[u8]> for Item {
    open spec fn obeys_from_spec() -> bool {
        false
    }

    open spec fn from_spec(v: &[u8]) -> Item {
        choose|item: Item| item@ == v@
    }
}

impl From<&str> for Item {
    fn from(s: &str) -> (item: Item)
        ensures
            item@ == encode_utf8(s@),
    {
        Item::from_str(s)
    }
}

impl vstd::std_specs::convert::FromSpecImpl<&str> for Item {
    open spec fn obeys_from_spec() -> bool {
        false
    }

    open spec fn from_spec(v: &str) -> Item {
        choose|item: Item| item@ == encode_utf8(v@)
    }
}

impl From<Vec<u8>> for Item {
    fn from(data: Vec<u8>) -> (item: Item)
        ensures
            item@ == data@,
    {
        Item::from_vec(data)
    }
}

impl vstd::std_specs::convert::FromSpecImpl<Vec<u8>> for Item {
    open spec fn obeys_from_spec() -> bool {
        false
    }

    open spec fn from_spec(v: Vec<u8>) -> Item {
        choose|item: Item| item@ == v@
    }
}

impl From<String> for Item {
    fn from(s: String) -> (item: Item)
        ensures
            item@ == encode_utf8(s@),
    {
        Item::from_str(s.as_str())
    }
}

impl vstd::std_specs::convert::FromSpecImpl<String> for Item {
    open spec fn obeys_from_spec() -> bool {
        false
    }

    open spec fn from_spec(v: String) -> Item {
        choose|item: Item| item@ == encode_utf8(v@)
    }
}

/// Text stored as an item reads back as the same text.
pub proof fn lemma_str_item_round_trip(s: Seq<char>)
    ensures
        valid_utf8(encode_utf8(s)),
        decode_utf8(encode_utf8(s)) == s,
{
    vstd::utf8::encode_utf8_valid_utf8(s);
    vstd::utf8::encode_utf8_decode_utf8(s);
}

/// An item whose bytes are UTF-8 is the item of the text it reads as.
pub proof fn lemma_item_str_round_trip(bytes: Seq<u8>)
    requires
        valid_utf8(bytes),
    ensures
        encode_utf8(decode_utf8(bytes)) == bytes,
{
    vstd::utf8::decode_utf8_encode_utf8(bytes);
}

/// A modification of a stored value, for `Cursor::modify`: `size` bytes at
/// byte `offset` of the value are replaced by `data`.
#[derive(Debug)]
pub struct Modify {
    /// New data to insert
    pub data: Item,
    /// Byte offset in the value where the modification starts
    pub offset: usize,
    /// Number of bytes to replace (0 for insert)
    pub size: usize,
}

impl Clone for Modify {
    fn clone(&self) -> (m: Modify)
        ensures
            m.data@ == self.data@,
            m.offset == self.offset,
            m.size == self.size,
    {
        Modify { data: self.data.clone(), offset: self.offset, size: self.size }
    }
}

impl Modify {
    /// A modification that inserts `data` at `offset`, replacing nothing.
    pub fn insert(data: Item, offset: usize) -> (m: Modify)
        ensures
            m.data == data,
            m.offset == offset,
            m.size == 0,
    {
        Modify { data, offset, size: 0 }
    }

    /// A modification that replaces `size` bytes at `offset` by `data`.
    pub fn replace(data: Item, offset: usize, size: usize) -> (m: Modify)
        ensures
            m.data == data,
            m.offset == offset,
            m.size == size,
    {
        Modify { data, offset, size }
    }
}

} // verus!
