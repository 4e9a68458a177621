//! The decoded payload: a loosely typed tree, its mathematical model, and
//! the typed ways of reading one of its fields.

use vstd::prelude::*;
use crate::error::{Entity, Error, Field};
use crate::number::{hundredths, read_hundredths, read_units, read_whole, units, whole_number};

verus! {

/// A decoded payload: a loosely typed tree of records, lists and scalars.
///
/// A number keeps the decimal text it was decoded to, so that whole numbers
/// and amounts with a fraction are read from it exactly.
#[derive(Debug, PartialEq, Eq)]
pub enum Payload {
    Null,
    Bool(bool),
    Number(String),
    Text(String),
    List(Vec<Payload>),
    Record(Vec<(String, Payload)>),
}

/// The mathematical model of a [`Payload`].
pub enum Tree {
    Null,
    Bool(bool),
    Number(Seq<char>),
    Text(Seq<char>),
    List(Seq<Tree>),
    Record(Seq<(Seq<char>, Tree)>),
}

impl View for Payload {
    type V = Tree;

    open spec fn view(&self) -> Tree
        decreases self, 0nat,
    {
        match self {
            Payload::Null => Tree::Null,
            Payload::Bool(b) => Tree::Bool(*b),
            Payload::Number(n) => Tree::Number(n@),
            Payload::Text(t) => Tree::Text(t@),
            Payload::List(items) => Tree::List(list_view(items@)),
            Payload::Record(fields) => Tree::Record(record_view(fields@)),
        }
    }
}

/// The models of the items of a list, in order.
pub open spec fn list_view(items: Seq<Payload>) -> Seq<Tree>
    decreases items, 1nat,
{
    if items.len() == 0 {
        Seq::empty()
    } else {
        list_view(items.drop_last()).push(items.last()@)
    }
}

/// The models of the fields of a record, in order.
pub open spec fn record_view(fields: Seq<(String, Payload)>) -> Seq<(Seq<char>, Tree)>
    decreases fields, 1nat,
{
    if fields.len() == 0 {
        Seq::empty()
    } else {
        record_view(fields.drop_last()).push((fields.last().0@, fields.last().1@))
    }
}

/// `list_view` keeps the length and models each item in place.
pub proof fn list_view_index(items: Seq<Payload>)
    ensures
        list_view(items).len() == items.len(),
        forall|i: int| 0 <= i < items.len() ==> (#[trigger] list_view(items)[i]) == items[i]@,
    decreases items.len(),
{
    if items.len() > 0 {
        list_view_index(items.drop_last());
        assert(list_view(items) == list_view(items.drop_last()).push(items.last()@));
    }
}

/// `record_view` keeps the length and models each field in place.
pub proof fn record_view_index(fields: Seq<(String, Payload)>)
    ensures
        record_view(fields).len() == fields.len(),
        forall|i: int|
            0 <= i < fields.len() ==> (#[trigger] record_view(fields)[i]) == (
                fields[i].0@,
                fields[i].1@,
            ),
    decreases fields.len(),
{
    if fields.len() > 0 {
        record_view_index(fields.drop_last());
        assert(record_view(fields) == record_view(fields.drop_last()).push(
            (fields.last().0@, fields.last().1@),
        ));
    }
}

/// The value of the first field of `fields` named `key`, if there is one.
pub open spec fn first_named(fields: Seq<(Seq<char>, Tree)>, key: Seq<char>) -> Option<Tree>
    decreases fields.len(),
{
    if fields.len() == 0 {
        None
    } else if fields[0].0 == key {
        Some(fields[0].1)
    } else {
        first_named(fields.drop_first(), key)
    }
}

/// `first_named` finds a field exactly where one has the name, and gives
/// the value of the first such field.
pub proof fn first_named_is_first(fields: Seq<(Seq<char>, Tree)>, key: Seq<char>)
    ensures
        first_named(fields, key) is None <==> forall|i: int|
            0 <= i < fields.len() ==> fields[i].0 != key,
        first_named(fields, key) is Some ==> exists|i: int|
            0 <= i < fields.len() && fields[i].0 == key && fields[i].1 == first_named(
                fields,
                key,
            )->Some_0 && forall|j: int| 0 <= j < i ==> fields[j].0 != key,
    decreases fields.len(),
{
    if fields.len() > 0 {
        let rest = fields.drop_first();
        first_named_is_first(rest, key);
        assert(forall|i: int| 0 < i < fields.len() ==> fields[i] == rest[i - 1]);
    }
}

impl Tree {
    /// What a record holds under `key`. A field that is missing, a field
    /// that holds null, and any field of a tree that is no record all read
    /// as `Tree::Null`.
    pub open spec fn at(self, key: Seq<char>) -> Tree {
        match self {
            Tree::Record(fields) => match first_named(fields, key) {
                Some(t) => t,
                None => Tree::Null,
            },
            _ => Tree::Null,
        }
    }
}

impl Tree {
    /// Reads a whole number: `None` for null, the number for a number
    /// written in digits alone that fits in 64 bits, `PayloadDecodeError`
    /// for anything else.
    pub open spec fn whole(self) -> Result<Option<u64>, Error> {
        match self {
            Tree::Null => Ok(None),
            Tree::Number(n) => match whole_number(n) {
                Some(x) => Ok(Some(x)),
                None => Err(Error::PayloadDecodeError),
            },
            _ => Err(Error::PayloadDecodeError),
        }
    }

    /// Reads the whole units of a decimal number, its fraction cut off.
    pub open spec fn units(self) -> Result<Option<u64>, Error> {
        match self {
            Tree::Null => Ok(None),
            Tree::Number(n) => match units(n) {
                Some(x) => Ok(Some(x)),
                None => Err(Error::PayloadDecodeError),
            },
            _ => Err(Error::PayloadDecodeError),
        }
    }

    /// Reads a decimal number in hundredths of a unit.
    pub open spec fn hundredths(self) -> Result<Option<u64>, Error> {
        match self {
            Tree::Null => Ok(None),
            Tree::Number(n) => match hundredths(n) {
                Some(x) => Ok(Some(x)),
                None => Err(Error::PayloadDecodeError),
            },
            _ => Err(Error::PayloadDecodeError),
        }
    }

    /// Reads a text: `None` for null, `PayloadDecodeError` for anything
    /// but a text.
    pub open spec fn text(self) -> Result<Option<Seq<char>>, Error> {
        match self {
            Tree::Null => Ok(None),
            Tree::Text(t) => Ok(Some(t)),
            _ => Err(Error::PayloadDecodeError),
        }
    }

    /// Reads a flag: `None` for null, `PayloadDecodeError` for anything
    /// but a boolean.
    pub open spec fn flag(self) -> Result<Option<bool>, Error> {
        match self {
            Tree::Null => Ok(None),
            Tree::Bool(b) => Ok(Some(b)),
            _ => Err(Error::PayloadDecodeError),
        }
    }

    /// Reads a list: no items for null, `PayloadDecodeError` for anything
    /// but a list.
    pub open spec fn items(self) -> Result<Seq<Tree>, Error> {
        match self {
            Tree::Null => Ok(Seq::empty()),
            Tree::List(items) => Ok(items),
            _ => Err(Error::PayloadDecodeError),
        }
    }
}

/// A field that an entity cannot do without: what was read, or
/// `MissingField` where nothing was there to read.
pub open spec fn needed<T>(read: Result<Option<T>, Error>, field: Field, entity: Entity) -> Result<
    T,
    Error,
> {
    match read {
        Ok(Some(x)) => Ok(x),
        Ok(None) => Err(Error::MissingField { field, entity }),
        Err(e) => Err(e),
    }
}

/// A field with a default: what was read, or `default` where nothing was
/// there to read.
pub open spec fn or_default<T>(read: Result<Option<T>, Error>, default: T) -> Result<T, Error> {
    match read {
        Ok(Some(x)) => Ok(x),
        Ok(None) => Ok(default),
        Err(e) => Err(e),
    }
}

/// How an optional text that was read relates to its model.
pub open spec fn text_read(r: Result<Option<String>, Error>) -> Result<Option<Seq<char>>, Error> {
    match r {
        Ok(Some(s)) => Ok(Some(s@)),
        Ok(None) => Ok(None),
        Err(e) => Err(e),
    }
}

impl Payload {
    /// The whole number under `key`.
    pub fn whole_at(&self, key: &str) -> (r: Result<Option<u64>, Error>)
        ensures
            r == self@.at(key@).whole(),
    {
        match self.get(key) {
            None => Ok(None),
            Some(Payload::Number(n)) => {
                match read_whole(n.as_str()) {
                    Some(x) => Ok(Some(x)),
                    None => Err(Error::PayloadDecodeError),
                }
            },
            Some(_) => Err(Error::PayloadDecodeError),
        }
    }

    /// The whole units of the decimal number under `key`.
    pub fn units_at(&self, key: &str) -> (r: Result<Option<u64>, Error>)
        ensures
            r == self@.at(key@).units(),
    {
        match self.get(key) {
            None => Ok(None),
            Some(Payload::Number(n)) => {
                match read_units(n.as_str()) {
                    Some(x) => Ok(Some(x)),
                    None => Err(Error::PayloadDecodeError),
                }
            },
            Some(_) => Err(Error::PayloadDecodeError),
        }
    }

    /// The decimal number under `key`, in hundredths.
    pub fn hundredths_at(&self, key: &str) -> (r: Result<Option<u64>, Error>)
        ensures
            r == self@.at(key@).hundredths(),
    {
        match self.get(key) {
            None => Ok(None),
            Some(Payload::Number(n)) => {
                match read_hundredths(n.as_str()) {
                    Some(x) => Ok(Some(x)),
                    None => Err(Error::PayloadDecodeError),
                }
            },
            Some(_) => Err(Error::PayloadDecodeError),
        }
    }

    /// The text under `key`.
    pub fn text_at(&self, key: &str) -> (r: Result<Option<String>, Error>)
        ensures
            text_read(r) == self@.at(key@).text(),
    {
        match self.get(key) {
            None => Ok(None),
            Some(Payload::Text(t)) => Ok(Some(t.clone())),
            Some(_) => Err(Error::PayloadDecodeError),
        }
    }

    /// The flag under `key`.
    pub fn flag_at(&self, key: &str) -> (r: Result<Option<bool>, Error>)
        ensures
            r == self@.at(key@).flag(),
    {
        match self.get(key) {
            None => Ok(None),
            Some(Payload::Bool(b)) => Ok(Some(*b)),
            Some(_) => Err(Error::PayloadDecodeError),
        }
    }

    /// The list under `key`; `None` stands for a list that is not there.
    pub fn items_at<'a>(&'a self, key: &str) -> (r: Result<Option<&'a Vec<Payload>>, Error>)
        ensures
            match r {
                Ok(Some(items)) => self@.at(key@).items() == Ok::<Seq<Tree>, Error>(
                    list_view(items@),
                ),
                Ok(None) => self@.at(key@).items() == Ok::<Seq<Tree>, Error>(Seq::empty()),
                Err(e) => self@.at(key@).items() == Err::<Seq<Tree>, Error>(e),
            },
    {
        match self.get(key) {
            None => Ok(None),
            Some(Payload::List(items)) => Ok(Some(items)),
            Some(_) => Err(Error::PayloadDecodeError),
        }
    }

    /// The field of this record named `key`; `None` where `at` reads null.
    pub fn get<'a>(&'a self, key: &str) -> (r: Option<&'a Payload>)
        ensures
            match r {
                Some(v) => self@.at(key@) == v@ && v@ != Tree::Null,
                None => self@.at(key@) == Tree::Null,
            },
    {
        match self {
            Payload::Record(fields) => {
                let wanted = key.to_owned();
                let mut i: usize = 0;
                proof {
                    record_view_index(fields@);
                    assert(self@->Record_0.skip(0) == self@->Record_0);
                }
                while i < fields.len()
                    invariant
                        i <= fields.len(),
                        wanted@ == key@,
                        self@ is Record,
                        self@->Record_0.len() == fields@.len(),
                        forall|j: int|
                            0 <= j < fields@.len() ==> self@->Record_0[j] == (
                                fields@[j].0@,
                                fields@[j].1@,
                            ),
                        first_named(self@->Record_0, key@) == first_named(
                            self@->Record_0.skip(i as int),
                            key@,
                        ),
                    decreases fields.len() - i,
                {
                    let ghost rest = self@->Record_0.skip(i as int);
                    assert(rest.drop_first() == self@->Record_0.skip(i + 1));
                    if fields[i].0 == wanted {
                        return match &fields[i].1 {
                            Payload::Null => None,
                            v => Some(v),
                        };
                    }
                    i += 1;
                }
                None
            },
            _ => None,
        }
    }
}

} // verus!
