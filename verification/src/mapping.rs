//! What the rules for reading entities have in common: fields that are
//! needed, fields with a default, and lists that are read item by item.

use vstd::prelude::*;
use crate::error::{Entity, Error, Field};
use crate::tree::{list_view, list_view_index, needed, or_default, Payload, Tree};

verus! {

/// The models of a sequence of values, in order.
pub open spec fn models<T: View>(items: Seq<T>) -> Seq<T::V> {
    items.map_values(|x: T| x@)
}

/// The model of an outcome: the model of what was built, or the error.
pub open spec fn modeled<T: View>(r: Result<T, Error>) -> Result<T::V, Error> {
    match r {
        Ok(x) => Ok(x@),
        Err(e) => Err(e),
    }
}

/// The model of an optional value.
pub open spec fn optional<T: View>(x: Option<T>) -> Option<T::V> {
    match x {
        Some(v) => Some(v@),
        None => None,
    }
}

/// Reads every item with `read`, in order: all the results, or the error
/// of the first item that fails.
pub open spec fn map_all<T>(items: Seq<Tree>, read: spec_fn(Tree) -> Result<T, Error>) -> Result<
    Seq<T>,
    Error,
>
    decreases items.len(),
{
    if items.len() == 0 {
        Ok(Seq::empty())
    } else {
        match map_all(items.drop_last(), read) {
            Err(e) => Err(e),
            Ok(done) => match read(items.last()) {
                Err(e) => Err(e),
                Ok(x) => Ok(done.push(x)),
            },
        }
    }
}

/// Where every item is read, the results are as many as the items and
/// stand in their order: each is what its item reads as.
pub proof fn map_all_keeps_order<T>(items: Seq<Tree>, read: spec_fn(Tree) -> Result<T, Error>)
    requires
        map_all(items, read) is Ok,
    ensures
        map_all(items, read)->Ok_0.len() == items.len(),
        forall|i: int|
            0 <= i < items.len() ==> read(items[i]) == Ok::<T, Error>(
                #[trigger] map_all(items, read)->Ok_0[i],
            ),
    decreases items.len(),
{
    if items.len() > 0 {
        map_all_keeps_order(items.drop_last(), read);
    }
}

/// An error among the first `k` items is the error of the whole.
pub proof fn map_all_fails_early<T>(
    items: Seq<Tree>,
    read: spec_fn(Tree) -> Result<T, Error>,
    k: int,
)
    requires
        0 <= k <= items.len(),
        map_all(items.take(k), read) is Err,
    ensures
        map_all(items, read) == map_all(items.take(k), read),
    decreases items.len(),
{
    if k == items.len() {
        assert(items.take(k) == items);
    } else {
        assert(items.drop_last().take(k) == items.take(k));
        map_all_fails_early(items.drop_last(), read, k);
    }
}

/// One more item: the items before it are read first, then the item.
pub proof fn map_all_next<T>(items: Seq<Tree>, read: spec_fn(Tree) -> Result<T, Error>, k: int)
    requires
        0 <= k < items.len(),
    ensures
        map_all(items.take(k + 1), read) == (match map_all(items.take(k), read) {
            Err(e) => Err(e),
            Ok(done) => match read(items[k]) {
                Err(e) => Err(e),
                Ok(x) => Ok(done.push(x)),
            },
        }),
{
    assert(items.take(k + 1).drop_last() == items.take(k));
}

/// Reads the list `t` item by item with `read`; a list that is not there
/// has no items.
pub open spec fn read_list<T>(t: Tree, read: spec_fn(Tree) -> Result<T, Error>) -> Result<
    Seq<T>,
    Error,
> {
    match t.items() {
        Err(e) => Err(e),
        Ok(items) => map_all(items, read),
    }
}

/// A field of an entity's identity: `MissingField` where nothing was read.
pub fn need<T>(read: Option<T>, field: Field, entity: Entity) -> (r: Result<T, Error>)
    ensures
        r == needed(Ok(read), field, entity),
{
    match read {
        Some(x) => Ok(x),
        None => Err(Error::MissingField { field, entity }),
    }
}

/// A field with a default: `default` where nothing was read.
pub fn null_as_default<T>(read: Option<T>, default: T) -> (r: T)
    ensures
        Ok::<T, Error>(r) == or_default(Ok(read), default),
{
    match read {
        Some(x) => x,
        None => default,
    }
}

/// What an entity is read from: a record, or null, which reads as a
/// record without fields. Anything else is `PayloadDecodeError`.
pub open spec fn readable(t: Tree) -> bool {
    t is Record || t is Null
}

/// Whether an entity can be read from `p`.
pub fn is_readable(p: &Payload) -> (r: bool)
    ensures
        r == readable(p@),
{
    match p {
        Payload::Record(_) => true,
        Payload::Null => true,
        _ => false,
    }
}

/// An entity that is read from one record of a payload.
pub trait FromPayload: View + Sized {
    /// The entity that the record `t` describes, or why it describes none.
    spec fn described(t: Tree) -> Result<Self::V, Error>;

    /// Reads the entity from its record.
    fn from_payload(p: &Payload) -> (r: Result<Self, Error>)
        ensures
            modeled(r) == Self::described(p@),
    ;
}

/// `described`, as a value.
pub open spec fn reader<T: FromPayload>() -> spec_fn(Tree) -> Result<T::V, Error> {
    |t: Tree| T::described(t)
}

/// The model of a list that was read: the models of its items, or the
/// error.
pub open spec fn modeled_list<T: View>(r: Result<Vec<T>, Error>) -> Result<Seq<T::V>, Error> {
    match r {
        Ok(items) => Ok(models(items@)),
        Err(e) => Err(e),
    }
}

/// Reads the entities of a list, in order; the first that cannot be read
/// fails the whole.
pub fn read_all<T: FromPayload>(items: &Vec<Payload>) -> (r: Result<Vec<T>, Error>)
    ensures
        modeled_list(r) == map_all(list_view(items@), reader::<T>()),
{
    let ghost trees = list_view(items@);
    proof {
        list_view_index(items@);
    }
    let mut out: Vec<T> = Vec::new();
    let mut i: usize = 0;
    assert(models(out@) == Seq::<T::V>::empty());
    while i < items.len()
        invariant
            i <= items.len(),
            trees == list_view(items@),
            trees.len() == items.len(),
            forall|j: int| 0 <= j < items.len() ==> (#[trigger] trees[j]) == items[j]@,
            map_all(trees.take(i as int), reader::<T>()) == Ok::<Seq<T::V>, Error>(models(out@)),
        decreases items.len() - i,
    {
        proof {
            map_all_next(trees, reader::<T>(), i as int);
        }
        let ghost before = models(out@);
        match T::from_payload(&items[i]) {
            Ok(entity) => {
                out.push(entity);
                assert(models(out@) == before.push(entity@));
            },
            Err(e) => {
                proof {
                    map_all_fails_early(trees, reader::<T>(), i + 1);
                }
                return Err(e);
            },
        }
        i += 1;
    }
    assert(trees.take(i as int) == trees);
    Ok(out)
}

/// Reads the list under `key` of `record` as entities; a list that is not
/// there has no items.
pub fn read_list_at<T: FromPayload>(record: &Payload, key: &str) -> (r: Result<Vec<T>, Error>)
    ensures
        modeled_list(r) == read_list(record@.at(key@), reader::<T>()),
{
    match record.items_at(key)? {
        Some(items) => read_all(items),
        None => {
            let out: Vec<T> = Vec::new();
            assert(models(out@) == Seq::<T::V>::empty());
            Ok(out)
        },
    }
}

/// Reads the entity under `key` of `record`; a field that is not there
/// reads as a record without fields.
pub fn read_at<T: FromPayload>(record: &Payload, key: &str) -> (r: Result<T, Error>)
    ensures
        modeled(r) == T::described(record@.at(key@)),
{
    match record.get(key) {
        Some(p) => T::from_payload(p),
        None => T::from_payload(&Payload::Null),
    }
}

} // verus!
