//! The objects of a PDF document, as far as the extraction reads them.
//!
//! A document is a trailer dictionary and a table of numbered objects.
//! Objects refer to each other by number. A numbered object may itself be a
//! reference; where the extraction asks for the object behind a number, it
//! follows such references, up to a fixed number of steps.

use vstd::prelude::*;
use vstd::string::*;

verus! {

/// Object number and generation number of an indirect object.
pub type ObjectId = (u32, u16);

/// A PDF object.
#[derive(Debug)]
pub enum PdfObject {
    Null,
    Boolean(bool),
    Integer(i64),
    /// A real number. No rule of the extraction reads its value.
    Real,
    Name(Vec<u8>),
    /// A string object: bytes in an encoding of the producer's choice.
    Text(Vec<u8>),
    Array(Vec<PdfObject>),
    Dictionary(PdfDictionary),
    Stream(PdfStream),
    Reference(ObjectId),
}

/// A dictionary: keys with their values, in the order in which they are stored.
#[derive(Debug)]
pub struct PdfDictionary {
    pub entries: Vec<(Vec<u8>, PdfObject)>,
}

/// A stream: a dictionary that describes the content, and the content as stored.
#[derive(Debug)]
pub struct PdfStream {
    pub dict: PdfDictionary,
    pub content: Vec<u8>,
}

/// A parsed document.
#[derive(Debug)]
pub struct PdfDocument {
    pub trailer: PdfDictionary,
    /// The indirect objects with their numbers.
    pub objects: Vec<(ObjectId, PdfObject)>,
}

/// A parsed document together with the numbers of its page objects, in
/// the order of the pages.
#[derive(Debug)]
pub struct PagedDocument {
    pub document: PdfDocument,
    pub pages: Vec<ObjectId>,
}

/// The most references that are followed from one numbered object to the
/// next before the search for the object behind a number is given up.
pub const REFERENCE_LIMIT: usize = 128;

/// The mathematical value of a [`PdfObject`].
pub enum ObjectModel {
    Null,
    Boolean(bool),
    Integer(i64),
    Real,
    Name(Seq<u8>),
    Text(Seq<u8>),
    Array(Seq<ObjectModel>),
    Dictionary(Seq<(Seq<u8>, ObjectModel)>),
    Stream(StreamModel),
    Reference(ObjectId),
}

/// The mathematical value of a [`PdfDictionary`]: its entries in stored order.
pub type DictionaryModel = Seq<(Seq<u8>, ObjectModel)>;

/// The mathematical value of a [`PdfStream`].
pub struct StreamModel {
    pub dict: DictionaryModel,
    pub content: Seq<u8>,
}

/// The mathematical value of a [`PdfDocument`].
pub struct DocumentModel {
    pub trailer: DictionaryModel,
    pub objects: Seq<(ObjectId, ObjectModel)>,
}

/// The mathematical value of a [`PagedDocument`].
pub struct PagedModel {
    pub document: DocumentModel,
    pub pages: Seq<ObjectId>,
}

/// The value of an object: the object with every byte string, array and
/// dictionary in it taken as a sequence. Inside an array or a dictionary the
/// value is asked only of the items that are there, which are smaller than
/// the object that holds them.
pub open spec fn object_value(object: PdfObject) -> ObjectModel
    decreases object,
{
    match object {
        PdfObject::Null => ObjectModel::Null,
        PdfObject::Boolean(value) => ObjectModel::Boolean(value),
        PdfObject::Integer(value) => ObjectModel::Integer(value),
        PdfObject::Real => ObjectModel::Real,
        PdfObject::Name(name) => ObjectModel::Name(name@),
        PdfObject::Text(bytes) => ObjectModel::Text(bytes@),
        PdfObject::Array(items) => ObjectModel::Array(
            Seq::new(
                items@.len(),
                |i: int|
                    if 0 <= i < items@.len() {
                        object_value(items@[i])
                    } else {
                        ObjectModel::Null
                    },
            ),
        ),
        PdfObject::Dictionary(dict) => ObjectModel::Dictionary(
            Seq::new(
                dict.entries@.len(),
                |i: int|
                    if 0 <= i < dict.entries@.len() {
                        (dict.entries@[i].0@, object_value(dict.entries@[i].1))
                    } else {
                        (Seq::empty(), ObjectModel::Null)
                    },
            ),
        ),
        PdfObject::Stream(stream) => ObjectModel::Stream(
            StreamModel {
                dict: Seq::new(
                    stream.dict.entries@.len(),
                    |i: int|
                        if 0 <= i < stream.dict.entries@.len() {
                            (stream.dict.entries@[i].0@, object_value(stream.dict.entries@[i].1))
                        } else {
                            (Seq::empty(), ObjectModel::Null)
                        },
                ),
                content: stream.content@,
            },
        ),
        PdfObject::Reference(id) => ObjectModel::Reference(id),
    }
}

impl View for PdfObject {
    type V = ObjectModel;

    open spec fn view(&self) -> ObjectModel {
        object_value(*self)
    }
}

impl View for PdfDictionary {
    type V = DictionaryModel;

    open spec fn view(&self) -> DictionaryModel {
        Seq::new(
            self.entries@.len(),
            |i: int| (self.entries@[i].0@, object_value(self.entries@[i].1)),
        )
    }
}

impl View for PdfStream {
    type V = StreamModel;

    open spec fn view(&self) -> StreamModel {
        StreamModel { dict: self.dict@, content: self.content@ }
    }
}

impl View for PdfDocument {
    type V = DocumentModel;

    open spec fn view(&self) -> DocumentModel {
        DocumentModel {
            trailer: self.trailer@,
            objects: Seq::new(
                self.objects@.len(),
                |i: int| (self.objects@[i].0, object_value(self.objects@[i].1)),
            ),
        }
    }
}

impl View for PagedDocument {
    type V = PagedModel;

    open spec fn view(&self) -> PagedModel {
        PagedModel { document: self.document@, pages: self.pages@ }
    }
}

/// The value of an array is the sequence of the values of its items; the
/// value of a dictionary or a stream is made of the value of its parts.
pub proof fn value_of_parts(object: PdfObject)
    ensures
        object matches PdfObject::Array(items) ==> object@ == ObjectModel::Array(
            Seq::new(items@.len(), |i: int| items@[i]@),
        ),
        object matches PdfObject::Dictionary(dict) ==> object@ == ObjectModel::Dictionary(dict@),
        object matches PdfObject::Stream(stream) ==> object@ == ObjectModel::Stream(stream@),
{
    match object {
        PdfObject::Array(items) => {
            assert(object@->Array_0 =~= Seq::new(items@.len(), |i: int| items@[i]@));
        },
        PdfObject::Dictionary(dict) => {
            assert(object@->Dictionary_0 =~= dict@);
        },
        PdfObject::Stream(stream) => {
            assert(object@->Stream_0.dict =~= stream.dict@);
        },
        _ => {},
    }
}

/// The bytes of a text made of ASCII characters.
pub open spec fn ascii(text: Seq<char>) -> Seq<u8> {
    Seq::new(text.len(), |i: int| text[i] as u8)
}

/// The value of the first entry stored under `key`.
pub open spec fn lookup_entry(entries: DictionaryModel, key: Seq<u8>) -> Option<ObjectModel>
    decreases entries.len(),
{
    if entries.len() == 0 {
        None
    } else if entries[0].0 == key {
        Some(entries[0].1)
    } else {
        lookup_entry(entries.skip(1), key)
    }
}

/// The first object stored under the number `id`.
pub open spec fn lookup_object(objects: Seq<(ObjectId, ObjectModel)>, id: ObjectId) -> Option<
    ObjectModel,
>
    decreases objects.len(),
{
    if objects.len() == 0 {
        None
    } else if objects[0].0 == id {
        Some(objects[0].1)
    } else {
        lookup_object(objects.skip(1), id)
    }
}

impl ObjectModel {
    /// True when the object is the name `name`.
    pub open spec fn is_name(self, name: Seq<u8>) -> bool {
        self == ObjectModel::Name(name)
    }
}

/// The object that `object` stands for: `object` itself unless it is a
/// reference, else what the object under its number stands for. Nothing
/// where a number has no object, or where more than `steps` references
/// would have to be followed.
pub open spec fn follow(
    objects: Seq<(ObjectId, ObjectModel)>,
    object: ObjectModel,
    steps: nat,
) -> Option<ObjectModel>
    decreases steps,
{
    match object {
        ObjectModel::Reference(next) => if steps == 0 {
            None
        } else {
            match lookup_object(objects, next) {
                Some(target) => follow(objects, target, (steps - 1) as nat),
                None => None,
            }
        },
        other => Some(other),
    }
}

impl DocumentModel {
    /// The object with the number `id`, if the document holds one.
    pub open spec fn object(self, id: ObjectId) -> Option<ObjectModel> {
        lookup_object(self.objects, id)
    }

    /// The object behind the number `id`: the object with that number, or,
    /// where that is a reference, the object that it leads to over at most
    /// [`REFERENCE_LIMIT`] further references. It is never a reference.
    pub open spec fn resolved(self, id: ObjectId) -> Option<ObjectModel> {
        match self.object(id) {
            Some(object) => follow(self.objects, object, REFERENCE_LIMIT as nat),
            None => None,
        }
    }

    /// The dictionary that `value` stands for: `value` itself where it is a
    /// dictionary, the object it refers to where it is a reference to one.
    pub open spec fn dictionary_of(self, value: ObjectModel) -> Option<DictionaryModel> {
        match value {
            ObjectModel::Dictionary(dict) => Some(dict),
            ObjectModel::Reference(id) => match self.object(id) {
                Some(ObjectModel::Dictionary(dict)) => Some(dict),
                _ => None,
            },
            _ => None,
        }
    }
}

/// Tells whether two byte strings are the same.
pub fn bytes_equal(a: &[u8], b: &[u8]) -> (same: bool)
    ensures
        same == (a@ == b@),
{
    if a.len() != b.len() {
        return false;
    }
    let mut at: usize = 0;
    while at < a.len()
        invariant
            at <= a.len(),
            a.len() == b.len(),
            a@.subrange(0, at as int) == b@.subrange(0, at as int),
        decreases a.len() - at,
    {
        if a[at] != b[at] {
            return false;
        }
        at = at + 1;
        assert(a@.subrange(0, at as int) =~= a@.subrange(0, at - 1).push(a@[at - 1]));
        assert(b@.subrange(0, at as int) =~= b@.subrange(0, at - 1).push(b@[at - 1]));
    }
    assert(a@ =~= a@.subrange(0, at as int));
    assert(b@ =~= b@.subrange(0, at as int));
    true
}

/// The bytes of an ASCII word, for use as a dictionary key or a name.
pub(crate) fn ascii_bytes(word: &str) -> (bytes: &[u8])
    requires
        is_ascii(word),
    ensures
        bytes@ == ascii(word@),
{
    proof {
        is_ascii_spec_bytes(word);
    }
    word.as_bytes()
}

impl PdfObject {
    /// Tells whether the object is the name `name`.
    pub fn has_name(&self, name: &[u8]) -> (yes: bool)
        ensures
            yes == self@.is_name(name@),
    {
        match self {
            PdfObject::Name(bytes) => bytes_equal(bytes.as_slice(), name),
            _ => false,
        }
    }
}

impl PdfDictionary {
    /// Finds the value stored under `key`: that of the first entry with this key.
    pub fn get(&self, key: &[u8]) -> (found: Option<&PdfObject>)
        ensures
            match found {
                Some(value) => lookup_entry(self@, key@) == Some(value@),
                None => lookup_entry(self@, key@) is None,
            },
    {
        let mut at: usize = 0;
        assert(self@.skip(0) =~= self@);
        while at < self.entries.len()
            invariant
                at <= self.entries.len(),
                lookup_entry(self@, key@) == lookup_entry(self@.skip(at as int), key@),
            decreases self.entries.len() - at,
        {
            assert(self@.skip(at as int)[0] == self@[at as int]);
            if bytes_equal(self.entries[at].0.as_slice(), key) {
                return Some(&self.entries[at].1);
            }
            assert(self@.skip(at as int).skip(1) =~= self@.skip(at + 1));
            at = at + 1;
        }
        None
    }
}

impl PdfDocument {
    /// Finds the object with the number `id`.
    pub fn get_object(&self, id: ObjectId) -> (found: Option<&PdfObject>)
        ensures
            match found {
                Some(object) => self@.object(id) == Some(object@),
                None => self@.object(id) is None,
            },
    {
        let ghost objects = self@.objects;
        let mut at: usize = 0;
        assert(objects.skip(0) =~= objects);
        while at < self.objects.len()
            invariant
                at <= self.objects.len(),
                objects == self@.objects,
                self@.object(id) == lookup_object(objects.skip(at as int), id),
            decreases self.objects.len() - at,
        {
            assert(objects.skip(at as int)[0] == objects[at as int]);
            let number: ObjectId = self.objects[at].0;
            if number.0 == id.0 && number.1 == id.1 {
                return Some(&self.objects[at].1);
            }
            assert(objects.skip(at as int).skip(1) =~= objects.skip(at + 1));
            at = at + 1;
        }
        None
    }

    /// Finds the object behind the number `id`, following references from
    /// one numbered object to the next.
    pub fn resolve_object(&self, id: ObjectId) -> (found: Option<&PdfObject>)
        ensures
            match found {
                Some(object) => self@.resolved(id) == Some(object@),
                None => self@.resolved(id) is None,
            },
    {
        let mut object: &PdfObject = match self.get_object(id) {
            Some(object) => object,
            None => { return None; },
        };
        let mut left: usize = REFERENCE_LIMIT;
        loop
            invariant
                left <= REFERENCE_LIMIT,
                self@.resolved(id) == follow(self@.objects, object@, left as nat),
            decreases left,
        {
            let next: ObjectId = match object {
                PdfObject::Reference(next) => *next,
                _ => {
                    proof {
                        value_of_parts(*object);
                    }
                    return Some(object);
                },
            };
            if left == 0 {
                return None;
            }
            object = match self.get_object(next) {
                Some(target) => target,
                None => { return None; },
            };
            left = left - 1;
        }
    }

    /// Resolves `value` to a dictionary, following at most one reference.
    pub fn resolve_dictionary<'a>(&'a self, value: &'a PdfObject) -> (found: Option<
        &'a PdfDictionary,
    >)
        ensures
            match found {
                Some(dict) => self@.dictionary_of(value@) == Some(dict@),
                None => self@.dictionary_of(value@) is None,
            },
    {
        proof {
            value_of_parts(*value);
        }
        match value {
            PdfObject::Dictionary(dict) => Some(dict),
            PdfObject::Reference(id) => match self.get_object(*id) {
                Some(object) => {
                    proof {
                        value_of_parts(*object);
                    }
                    match object {
                        PdfObject::Dictionary(dict) => Some(dict),
                        _ => None,
                    }
                },
                None => None,
            },
            _ => None,
        }
    }
}

} // verus!
