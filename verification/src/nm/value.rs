//! The values of the profile backend's dictionaries.

use vstd::prelude::*;
use vstd::string::StringExecFns;
use crate::error::{ErrorKind, NmError};
use crate::strmap::TextMap;
use crate::text::{Text, clone_strings};

verus! {

/// `zvariant::OwnedValue`: a value of the message bus, of any shape. Nothing
/// is known of what it holds.
#[verifier::external_type_specification]
#[verifier::external_body]
pub struct ExOwnedValue(zvariant::OwnedValue);

/// `Clone::clone` on `zvariant::OwnedValue`: the copy is the same value.
#[verifier::external_body]
fn clone_owned_value(v: &zvariant::OwnedValue) -> (copy: zvariant::OwnedValue)
    ensures
        copy == *v,
{
    v.clone()
}

/// A value of a dictionary of the profile backend. A value of a shape that
/// this library does not read is carried as the backend handed it out. A
/// value reads as a number, a truth value or a string only where it is one;
/// a list without elements reads as a list of any kind.
#[derive(Debug, PartialEq)]
pub enum DbusValue {
    Bool(bool),
    U8(u8),
    I32(i32),
    U32(u32),
    Str(String),
    Bytes(Vec<u8>),
    StrList(Vec<String>),
    /// A list without elements, with the signature of its elements: it reads
    /// as a list of any kind.
    EmptyList(String),
    /// A value of any other shape.
    Other(zvariant::OwnedValue),
}

/// The mathematical form of `DbusValue`.
pub enum DbusValueView {
    Bool(bool),
    U8(u8),
    I32(i32),
    U32(u32),
    Str(Text),
    Bytes(Seq<u8>),
    StrList(Seq<Text>),
    EmptyList(Text),
    Other(zvariant::OwnedValue),
}

impl DeepView for DbusValue {
    type V = DbusValueView;

    open spec fn deep_view(&self) -> DbusValueView {
        match self {
            DbusValue::Bool(b) => DbusValueView::Bool(*b),
            DbusValue::U8(n) => DbusValueView::U8(*n),
            DbusValue::I32(n) => DbusValueView::I32(*n),
            DbusValue::U32(n) => DbusValueView::U32(*n),
            DbusValue::Str(s) => DbusValueView::Str(s@),
            DbusValue::Bytes(b) => DbusValueView::Bytes(b@),
            DbusValue::StrList(l) => DbusValueView::StrList(l.deep_view()),
            DbusValue::EmptyList(sig) => DbusValueView::EmptyList(sig@),
            DbusValue::Other(v) => DbusValueView::Other(*v),
        }
    }
}

impl View for DbusValue {
    type V = DbusValueView;

    open spec fn view(&self) -> DbusValueView {
        self.deep_view()
    }
}

/// A copy of a list of bytes.
pub fn clone_bytes(bytes: &Vec<u8>) -> (copy: Vec<u8>)
    ensures
        copy@ == bytes@,
{
    let copy = bytes.clone();
    assert(copy@ =~= bytes@);
    copy
}

/// A copy of an optional list of bytes.
pub fn clone_opt_bytes(bytes: &Option<Vec<u8>>) -> (copy: Option<Vec<u8>>)
    ensures
        copy.deep_view() == bytes.deep_view(),
{
    match bytes {
        Some(b) => {
            let c = clone_bytes(b);
            assert(c.deep_view() =~= b.deep_view());
            Some(c)
        },
        None => None,
    }
}

impl Clone for DbusValue {
    fn clone(&self) -> (copy: Self)
        ensures
            copy@ == self@,
    {
        match self {
            DbusValue::Bool(b) => DbusValue::Bool(*b),
            DbusValue::U8(n) => DbusValue::U8(*n),
            DbusValue::I32(n) => DbusValue::I32(*n),
            DbusValue::U32(n) => DbusValue::U32(*n),
            DbusValue::Str(s) => DbusValue::Str(s.clone()),
            DbusValue::Bytes(b) => DbusValue::Bytes(clone_bytes(b)),
            DbusValue::StrList(l) => DbusValue::StrList(clone_strings(l)),
            DbusValue::EmptyList(sig) => DbusValue::EmptyList(sig.clone()),
            DbusValue::Other(v) => DbusValue::Other(clone_owned_value(v)),
        }
    }
}

/// A dictionary of the profile backend.
pub type DbusDictionary = TextMap<DbusValue>;

/// A dictionary written out: its entries in order.
pub type DbusEntries = Vec<(String, DbusValue)>;

impl TextMap<DbusValue> {
    /// A copy of the dictionary.
    pub fn duplicate(&self) -> (copy: Self)
        ensures
            copy@ == self@,
            copy.spec_entries() == self.spec_entries(),
    {
        let mut copy: TextMap<DbusValue> = TextMap::new();
        let n = self.len();
        let mut i: usize = 0;
        while i < n
            invariant
                i <= n,
                n == self.spec_entries().len(),
                crate::strmap::keys_unique(self.spec_entries()),
                copy.spec_entries() == self.spec_entries().take(i as int),
            decreases n - i,
        {
            let (k, v) = self.entry(i);
            let ghost before = copy.spec_entries();
            proof {
                if crate::strmap::has_key(before, k@) {
                    let j = choose|j: int| 0 <= j < before.len() && (#[trigger] before[j]).0 == k@;
                    assert(self.spec_entries()[j].0 != self.spec_entries()[i as int].0);
                }
            }
            copy.insert(k.clone(), v.clone());
            assert(self.spec_entries().take(i as int + 1) =~= before.push(
                self.spec_entries()[i as int],
            ));
            i += 1;
        }
        assert(self.spec_entries().take(n as int) =~= self.spec_entries());
        copy
    }
}

impl TextMap<DbusValue> {
    /// Stores every entry of `other`, in place of what was there under its
    /// key.
    pub fn extend(&mut self, other: &DbusDictionary)
        ensures
            final(self)@ == old(self)@.union_prefer_right(other@),
    {
        let n = other.len();
        let mut i: usize = 0;
        let ghost all = other.spec_entries();
        assert(self@ =~= old(self)@.union_prefer_right(crate::strmap::entries_map(all.take(0))));
        while i < n
            invariant
                i <= n,
                n == all.len(),
                all == other.spec_entries(),
                crate::strmap::keys_unique(all),
                self@ == old(self)@.union_prefer_right(crate::strmap::entries_map(all.take(i as int))),
            decreases n - i,
        {
            let (k, v) = other.entry(i);
            proof {
                let before = all.take(i as int);
                let after = all.take(i as int + 1);
                assert(after =~= before.push(all[i as int]));
                assert(crate::strmap::keys_unique(before)) by {
                    assert forall|a: int, b: int| 0 <= a < b < before.len() implies (
                    #[trigger] before[a]).0 != (#[trigger] before[b]).0 by {
                        assert(all[a].0 != all[b].0);
                    }
                }
                assert(crate::strmap::keys_unique(after)) by {
                    assert forall|a: int, b: int| 0 <= a < b < after.len() implies (
                    #[trigger] after[a]).0 != (#[trigger] after[b]).0 by {
                        assert(all[a].0 != all[b].0);
                    }
                }
                if crate::strmap::has_key(before, k@) {
                    let j = choose|j: int| 0 <= j < before.len() && (#[trigger] before[j]).0 == k@;
                    assert(all[j].0 != all[i as int].0);
                }
                crate::strmap::lemma_insert_view(before, after, k@, v@, before.len() as int);
            }
            let ghost prev = self@;
            self.insert(k.clone(), v.clone());
            assert(self@ =~= old(self)@.union_prefer_right(
                crate::strmap::entries_map(all.take(i as int + 1)),
            ));
            i += 1;
        }
        assert(all.take(n as int) =~= all);
    }
}

impl Clone for TextMap<DbusValue> {
    fn clone(&self) -> (copy: Self)
        ensures
            copy@ == self@,
            copy.spec_entries() == self.spec_entries(),
    {
        self.duplicate()
    }
}

/// The start of the message of a value of the wrong type.
pub const MSG_INCORRECT_TYPE: &'static str = "incorrect type of the value of ";

/// The number in a value, where it is a 32-bit signed integer.
pub open spec fn as_i32(v: DbusValueView) -> Option<i32> {
    match v {
        DbusValueView::I32(n) => Some(n),
        _ => None,
    }
}

/// The number in a value, where it is a 32-bit unsigned integer.
pub open spec fn as_u32(v: DbusValueView) -> Option<u32> {
    match v {
        DbusValueView::U32(n) => Some(n),
        _ => None,
    }
}

/// The number in a value, where it is a byte.
pub open spec fn as_u8(v: DbusValueView) -> Option<u8> {
    match v {
        DbusValueView::U8(n) => Some(n),
        _ => None,
    }
}

/// The truth value in a value, where it is one.
pub open spec fn as_bool(v: DbusValueView) -> Option<bool> {
    match v {
        DbusValueView::Bool(b) => Some(b),
        _ => None,
    }
}

/// The text in a value, where it is a string.
pub open spec fn as_text(v: DbusValueView) -> Option<Text> {
    match v {
        DbusValueView::Str(s) => Some(s),
        _ => None,
    }
}

/// The bytes in a value, where it is a list of bytes or a list without
/// elements.
pub open spec fn as_bytes(v: DbusValueView) -> Option<Seq<u8>> {
    match v {
        DbusValueView::Bytes(b) => Some(b),
        DbusValueView::StrList(l) => if l.len() == 0 {
            Some(Seq::empty())
        } else {
            None
        },
        DbusValueView::EmptyList(_) => Some(Seq::empty()),
        _ => None,
    }
}

/// The texts in a value, where it is a list of strings or a list without
/// elements.
pub open spec fn as_texts(v: DbusValueView) -> Option<Seq<Text>> {
    match v {
        DbusValueView::StrList(l) => Some(l),
        DbusValueView::Bytes(b) => if b.len() == 0 {
            Some(Seq::empty())
        } else {
            None
        },
        DbusValueView::EmptyList(_) => Some(Seq::empty()),
        _ => None,
    }
}

/// What a dictionary holds under `key`, read as `pick` reads a value:
/// nothing where the key is missing or the value is of another type.
pub open spec fn found<T>(
    d: Map<Text, DbusValueView>,
    key: Text,
    pick: spec_fn(DbusValueView) -> Option<T>,
) -> Option<T> {
    if d.contains_key(key) {
        pick(d[key])
    } else {
        None
    }
}

/// Whether a dictionary holds under `key` a value that `pick` cannot read.
pub open spec fn mistyped<T>(
    d: Map<Text, DbusValueView>,
    key: Text,
    pick: spec_fn(DbusValueView) -> Option<T>,
) -> bool {
    d.contains_key(key) && pick(d[key]) is None
}

/// The message for a value of the wrong type under `key`.
pub open spec fn type_error(key: Text) -> Text {
    MSG_INCORRECT_TYPE@ + key
}

/// The error for a value of the wrong type under `key`.
pub fn incorrect_type(key: &str) -> (e: NmError)
    ensures
        e.kind == ErrorKind::Bug,
        e.msg@ == type_error(key@),
{
    let mut msg = MSG_INCORRECT_TYPE.to_owned();
    msg.append(key);
    NmError::new(ErrorKind::Bug, msg)
}

/// Whether the result of a typed read agrees with the dictionary.
pub open spec fn took<T>(
    r: Result<Option<T>, NmError>,
    d: Map<Text, DbusValueView>,
    key: Text,
    pick: spec_fn(DbusValueView) -> Option<T>,
) -> bool {
    match r {
        Ok(x) => !mistyped(d, key, pick) && x == found(d, key, pick),
        Err(e) => mistyped(d, key, pick) && e.kind == ErrorKind::Bug && e.msg@ == type_error(key),
    }
}

/// Whether the result of a typed read agrees with the dictionary, for values
/// with a view.
pub open spec fn took_deep<T: DeepView>(
    r: Result<Option<T>, NmError>,
    d: Map<Text, DbusValueView>,
    key: Text,
    pick: spec_fn(DbusValueView) -> Option<T::V>,
) -> bool {
    match r {
        Ok(x) => !mistyped(d, key, pick) && x.deep_view() == found(d, key, pick),
        Err(e) => mistyped(d, key, pick) && e.kind == ErrorKind::Bug && e.msg@ == type_error(key),
    }
}

/// Reads the 32-bit signed integer under `key` of a dictionary.
pub fn read_i32(d: &DbusDictionary, key: &str) -> (r: Result<Option<i32>, NmError>)
    ensures
        took(r, d@, key@, |v: DbusValueView| as_i32(v)),
{
    match d.get(key) {
        None => Ok(None),
        Some(DbusValue::I32(n)) => Ok(Some(*n)),
        Some(_) => Err(incorrect_type(key)),
    }
}

/// Reads the 32-bit unsigned integer under `key` of a dictionary.
pub fn read_u32(d: &DbusDictionary, key: &str) -> (r: Result<Option<u32>, NmError>)
    ensures
        took(r, d@, key@, |v: DbusValueView| as_u32(v)),
{
    match d.get(key) {
        None => Ok(None),
        Some(DbusValue::U32(n)) => Ok(Some(*n)),
        Some(_) => Err(incorrect_type(key)),
    }
}

/// Reads the byte under `key` of a dictionary.
pub fn read_u8(d: &DbusDictionary, key: &str) -> (r: Result<Option<u8>, NmError>)
    ensures
        took(r, d@, key@, |v: DbusValueView| as_u8(v)),
{
    match d.get(key) {
        None => Ok(None),
        Some(DbusValue::U8(n)) => Ok(Some(*n)),
        Some(_) => Err(incorrect_type(key)),
    }
}

/// Reads the truth value under `key` of a dictionary.
pub fn read_bool(d: &DbusDictionary, key: &str) -> (r: Result<Option<bool>, NmError>)
    ensures
        took(r, d@, key@, |v: DbusValueView| as_bool(v)),
{
    match d.get(key) {
        None => Ok(None),
        Some(DbusValue::Bool(b)) => Ok(Some(*b)),
        Some(_) => Err(incorrect_type(key)),
    }
}

/// Reads the string under `key` of a dictionary.
pub fn read_string(d: &DbusDictionary, key: &str) -> (r: Result<Option<String>, NmError>)
    ensures
        took_deep(r, d@, key@, |v: DbusValueView| as_text(v)),
{
    match d.get(key) {
        None => Ok(None),
        Some(DbusValue::Str(s)) => Ok(Some(s.clone())),
        Some(_) => Err(incorrect_type(key)),
    }
}

/// Reads the list of bytes under `key` of a dictionary.
pub fn read_bytes(d: &DbusDictionary, key: &str) -> (r: Result<Option<Vec<u8>>, NmError>)
    ensures
        took_deep(r, d@, key@, |v: DbusValueView| as_bytes(v)),
{
    match d.get(key) {
        None => Ok(None),
        Some(DbusValue::Bytes(b)) => {
            let c = clone_bytes(b);
            assert(c.deep_view() =~= b@);
            Ok(Some(c))
        },
        Some(DbusValue::StrList(l)) => if l.len() == 0 {
            let c: Vec<u8> = Vec::new();
            assert(c.deep_view() =~= Seq::<u8>::empty());
            assert(l.deep_view().len() == 0);
            Ok(Some(c))
        } else {
            assert(l.deep_view().len() > 0);
            Err(incorrect_type(key))
        },
        Some(DbusValue::EmptyList(_)) => {
            let c: Vec<u8> = Vec::new();
            assert(c.deep_view() =~= Seq::<u8>::empty());
            Ok(Some(c))
        },
        Some(_) => Err(incorrect_type(key)),
    }
}

/// Reads the list of strings under `key` of a dictionary.
pub fn read_strings(d: &DbusDictionary, key: &str) -> (r: Result<
    Option<Vec<String>>,
    NmError,
>)
    ensures
        took_deep(r, d@, key@, |v: DbusValueView| as_texts(v)),
{
    match d.get(key) {
        None => Ok(None),
        Some(DbusValue::StrList(l)) => Ok(Some(clone_strings(l))),
        Some(DbusValue::Bytes(b)) => if b.len() == 0 {
            let c: Vec<String> = Vec::new();
            assert(c.deep_view() =~= Seq::<Text>::empty());
            Ok(Some(c))
        } else {
            Err(incorrect_type(key))
        },
        Some(DbusValue::EmptyList(_)) => {
            let c: Vec<String> = Vec::new();
            assert(c.deep_view() =~= Seq::<Text>::empty());
            Ok(Some(c))
        },
        Some(_) => Err(incorrect_type(key)),
    }
}

/// Takes the entry under `key` out of a dictionary.
pub fn discard(d: &mut DbusDictionary, key: &str)
    ensures
        final(d)@ == old(d)@.remove(key@),
{
    let _ = d.remove(key);
}

/// The failure, if any, of reading `key` as `pick` reads it.
pub open spec fn failure<T>(
    d: Map<Text, DbusValueView>,
    key: Text,
    pick: spec_fn(DbusValueView) -> Option<T>,
) -> Option<Text> {
    if mistyped(d, key, pick) {
        Some(type_error(key))
    } else {
        None
    }
}

/// The first of two failures.
pub open spec fn or_else(a: Option<Text>, b: Option<Text>) -> Option<Text> {
    match a {
        Some(m) => Some(m),
        None => b,
    }
}

/// An entry for `key` where there is a value, nothing where there is none.
pub open spec fn entry_of(key: Text, value: Option<DbusValueView>) -> Seq<(Text, DbusValueView)> {
    match value {
        Some(v) => seq![(key, v)],
        None => Seq::empty(),
    }
}

/// An optional 32-bit signed integer as a value.
pub open spec fn of_i32(n: Option<i32>) -> Option<DbusValueView> {
    match n {
        Some(x) => Some(DbusValueView::I32(x)),
        None => None,
    }
}

/// An optional 32-bit unsigned integer as a value.
pub open spec fn of_u32(n: Option<u32>) -> Option<DbusValueView> {
    match n {
        Some(x) => Some(DbusValueView::U32(x)),
        None => None,
    }
}

/// An optional byte as a value.
pub open spec fn of_u8(n: Option<u8>) -> Option<DbusValueView> {
    match n {
        Some(x) => Some(DbusValueView::U8(x)),
        None => None,
    }
}

/// An optional truth value as a value.
pub open spec fn of_bool(n: Option<bool>) -> Option<DbusValueView> {
    match n {
        Some(x) => Some(DbusValueView::Bool(x)),
        None => None,
    }
}

/// An optional text as a value.
pub open spec fn of_text(n: Option<Text>) -> Option<DbusValueView> {
    match n {
        Some(x) => Some(DbusValueView::Str(x)),
        None => None,
    }
}

/// Appends an entry for `key` where there is a value.
pub fn push_entry(entries: &mut DbusEntries, key: &str, value: Option<DbusValue>)
    ensures
        final(entries).deep_view() == old(entries).deep_view() + entry_of(
            key@,
            value.deep_view(),
        ),
{
    let ghost before = entries.deep_view();
    match value {
        Some(v) => {
            entries.push((key.to_owned(), v));
            assert(entries.deep_view() =~= before + entry_of(key@, value.deep_view()));
        },
        None => {
            assert(entries.deep_view() =~= before + entry_of(key@, value.deep_view()));
        },
    }
}

/// Appends the entries of a dictionary, in their order.
pub fn push_dictionary(entries: &mut DbusEntries, d: &DbusDictionary)
    ensures
        final(entries).deep_view() == old(entries).deep_view() + d.spec_entries(),
{
    let ghost before = entries.deep_view();
    let n = d.len();
    let mut i: usize = 0;
    assert(entries.deep_view() =~= before + d.spec_entries().take(0));
    while i < n
        invariant
            i <= n,
            n == d.spec_entries().len(),
            entries.deep_view() == before + d.spec_entries().take(i as int),
        decreases n - i,
    {
        let (k, v) = d.entry(i);
        let ghost prev = entries.deep_view();
        entries.push((k.clone(), v.clone()));
        assert(entries.deep_view() =~= prev.push(d.spec_entries()[i as int]));
        assert(d.spec_entries().take(i as int + 1) =~= d.spec_entries().take(i as int).push(
            d.spec_entries()[i as int],
        ));
        assert(entries.deep_view() =~= before + d.spec_entries().take(i as int + 1));
        i += 1;
    }
    assert(d.spec_entries().take(n as int) =~= d.spec_entries());
}

/// An optional 32-bit signed integer as a value.
pub fn value_i32(n: Option<i32>) -> (v: Option<DbusValue>)
    ensures
        v.deep_view() == of_i32(n),
{
    match n {
        Some(x) => Some(DbusValue::I32(x)),
        None => None,
    }
}

/// An optional 32-bit unsigned integer as a value.
pub fn value_u32(n: Option<u32>) -> (v: Option<DbusValue>)
    ensures
        v.deep_view() == of_u32(n),
{
    match n {
        Some(x) => Some(DbusValue::U32(x)),
        None => None,
    }
}

/// An optional byte as a value.
pub fn value_u8(n: Option<u8>) -> (v: Option<DbusValue>)
    ensures
        v.deep_view() == of_u8(n),
{
    match n {
        Some(x) => Some(DbusValue::U8(x)),
        None => None,
    }
}

/// A copy of an optional string as a value.
pub fn value_text(n: &Option<String>) -> (v: Option<DbusValue>)
    ensures
        v.deep_view() == of_text(n.deep_view()),
{
    match n {
        Some(x) => Some(DbusValue::Str(x.clone())),
        None => None,
    }
}

/// `m` with `v` under `key` where there is a value.
pub open spec fn with(m: Map<Text, DbusValueView>, key: Text, v: Option<DbusValueView>) -> Map<
    Text,
    DbusValueView,
> {
    match v {
        Some(x) => m.insert(key, x),
        None => m,
    }
}

/// An optional list of bytes as a value.
pub open spec fn of_bytes(b: Option<Seq<u8>>) -> Option<DbusValueView> {
    match b {
        Some(x) => Some(DbusValueView::Bytes(x)),
        None => None,
    }
}

/// An optional list of texts as a value.
pub open spec fn of_texts(l: Option<Seq<Text>>) -> Option<DbusValueView> {
    match l {
        Some(x) => Some(DbusValueView::StrList(x)),
        None => None,
    }
}

/// Stores `value` under `key` where there is a value.
pub fn put(d: &mut DbusDictionary, key: &str, value: Option<DbusValue>)
    ensures
        final(d)@ == with(old(d)@, key@, value.deep_view()),
{
    if let Some(v) = value {
        d.insert(key.to_owned(), v);
    }
}

/// A copy of an optional list of bytes as a value.
pub fn value_bytes(n: &Option<Vec<u8>>) -> (v: Option<DbusValue>)
    ensures
        v.deep_view() == of_bytes(n.deep_view()),
{
    match n {
        Some(x) => {
            let c = clone_bytes(x);
            assert(x.deep_view() =~= x@);
            Some(DbusValue::Bytes(c))
        },
        None => None,
    }
}

/// A copy of an optional list of strings as a value.
pub fn value_texts(n: &Option<Vec<String>>) -> (v: Option<DbusValue>)
    ensures
        v.deep_view() == of_texts(n.deep_view()),
{
    match n {
        Some(x) => Some(DbusValue::StrList(clone_strings(x))),
        None => None,
    }
}

} // verus!
