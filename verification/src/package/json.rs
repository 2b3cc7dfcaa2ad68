//! JSON trees, and the digest that a tree has whatever its layout.

use crate::arithmetic;
use crate::digest;
use crate::ordered;
use crate::sequence;
use crate::text;
use crate::text::Message;
use serde_json::Value;
use vstd::prelude::*;

verus! {

/// How the digest of a JSON tree is taken.
pub const CONTRACT_DIGEST_ALGORITHM: &'static str = "nerve.json_tree_sha256.v1";

/// A JSON value. A number is signed where it fits, unsigned where only that fits, and otherwise a
/// double, held by its bits. The fields of an object stand in the order of their names.
#[derive(Debug, PartialEq, Eq)]
pub enum JsonTree {
    Null,
    Bool(bool),
    Signed(i64),
    Unsigned(u64),
    Double(u64),
    Text(String),
    List(Vec<JsonTree>),
    Object(Vec<(String, JsonTree)>),
}

/// The value of a JSON value.
#[verifier::ext_equal]
pub enum JsonTreeView {
    Null,
    Bool(bool),
    Signed(i64),
    Unsigned(u64),
    Double(u64),
    Text(Seq<char>),
    List(Seq<JsonTreeView>),
    Object(Seq<(Seq<char>, JsonTreeView)>),
}

/// The value of a JSON value.
pub open spec fn tree_view(tree: JsonTree) -> JsonTreeView
    decreases tree,
{
    match tree {
        JsonTree::Null => JsonTreeView::Null,
        JsonTree::Bool(value) => JsonTreeView::Bool(value),
        JsonTree::Signed(value) => JsonTreeView::Signed(value),
        JsonTree::Unsigned(value) => JsonTreeView::Unsigned(value),
        JsonTree::Double(bits) => JsonTreeView::Double(bits),
        JsonTree::Text(value) => JsonTreeView::Text(value@),
        JsonTree::List(items) => JsonTreeView::List(items_view(items@)),
        JsonTree::Object(fields) => JsonTreeView::Object(fields_view(fields@)),
    }
}

/// The values of a list.
pub open spec fn items_view(items: Seq<JsonTree>) -> Seq<JsonTreeView>
    decreases items,
{
    if items.len() == 0 {
        Seq::empty()
    } else {
        items_view(items.drop_last()).push(tree_view(items.last()))
    }
}

/// The values of the fields of an object.
pub open spec fn fields_view(fields: Seq<(String, JsonTree)>) -> Seq<(Seq<char>, JsonTreeView)>
    decreases fields,
{
    if fields.len() == 0 {
        Seq::empty()
    } else {
        fields_view(fields.drop_last()).push((fields.last().0@, tree_view(fields.last().1)))
    }
}

impl DeepView for JsonTree {
    type V = JsonTreeView;

    open spec fn deep_view(&self) -> JsonTreeView {
        tree_view(*self)
    }
}

impl View for JsonTree {
    type V = JsonTreeView;

    open spec fn view(&self) -> JsonTreeView {
        tree_view(*self)
    }
}

/// An item of a list, by its position.
pub proof fn lemma_items_view(items: Seq<JsonTree>)
    ensures
        items_view(items).len() == items.len(),
        forall|i: int|
            0 <= i < items.len() ==> #[trigger] items_view(items)[i] == tree_view(items[i]),
    decreases items.len(),
{
    if items.len() > 0 {
        lemma_items_view(items.drop_last());
        assert forall|i: int| 0 <= i < items.len() implies #[trigger] items_view(items)[i]
            == tree_view(items[i]) by {
            if i < items.len() - 1 {
                assert(items.drop_last()[i] == items[i]);
            }
        }
    }
}

/// A field of an object, by its position.
pub proof fn lemma_fields_view(fields: Seq<(String, JsonTree)>)
    ensures
        fields_view(fields).len() == fields.len(),
        forall|i: int|
            0 <= i < fields.len() ==> #[trigger] fields_view(fields)[i] == (
                fields[i].0@,
                tree_view(fields[i].1),
            ),
    decreases fields.len(),
{
    if fields.len() > 0 {
        lemma_fields_view(fields.drop_last());
        assert forall|i: int| 0 <= i < fields.len() implies #[trigger] fields_view(fields)[i] == (
            fields[i].0@,
            tree_view(fields[i].1),
        ) by {
            if i < fields.len() - 1 {
                assert(fields.drop_last()[i] == fields[i]);
            }
        }
    }
}

/// The names of the fields of an object.
pub open spec fn names(fields: Seq<(Seq<char>, JsonTreeView)>) -> Seq<Seq<char>> {
    ordered::keys_of(fields)
}

/// Whether the fields of every object in a tree stand in the order of their names, each name once.
pub open spec fn in_order(tree: JsonTreeView) -> bool
    decreases tree,
{
    match tree {
        JsonTreeView::List(items) => all_in_order(items),
        JsonTreeView::Object(fields) => ordered::increasing::<String>(names(fields))
            && fields_in_order(fields),
        _ => true,
    }
}

/// Whether that holds of every item of a list.
pub open spec fn all_in_order(items: Seq<JsonTreeView>) -> bool
    decreases items,
{
    items.len() == 0 || (all_in_order(items.drop_last()) && in_order(items.last()))
}

/// Whether that holds of every field of an object.
pub open spec fn fields_in_order(fields: Seq<(Seq<char>, JsonTreeView)>) -> bool
    decreases fields,
{
    fields.len() == 0 || (fields_in_order(fields.drop_last()) && in_order(fields.last().1))
}

/// The JSON value that these bytes hold, or why they hold none.
pub uninterp spec fn json_of(bytes: Seq<u8>) -> Result<JsonTreeView, Seq<char>>;

#[verifier::external_type_specification]
#[verifier::external_body]
pub struct ExValue(serde_json::Value);

/// The JSON value that these bytes hold.
///
/// Trusted: `serde_json::from_slice` into a `serde_json::Value`. What it gives is a function of the
/// bytes alone, named `json_of` here: the value, or the words of its error. An object of it keeps its
/// fields in the order of their names, each name once, as the map behind it does. Which bytes hold
/// which value is left unsaid.
#[verifier::external_body]
pub(crate) fn parse_json(bytes: &Vec<u8>) -> (r: Result<JsonTree, String>)
    ensures
        sequence::outcome(r) == json_of(bytes@),
        r matches Ok(tree) ==> in_order(tree@),
{
    match serde_json::from_slice::<Value>(bytes) {
        Ok(value) => Ok(tree_of(&value)),
        Err(error) => Err(error.to_string()),
    }
}

/// The same JSON value, variant by variant.
///
/// Trusted: it tells the variants of a `serde_json::Value` apart and moves what they hold; a number
/// is told apart by `as_i64`, `as_u64` and `as_f64`. Nothing is claimed of it here.
#[verifier::external_body]
fn tree_of(value: &Value) -> (r: JsonTree) {
    match value {
        Value::Null => JsonTree::Null,
        Value::Bool(value) => JsonTree::Bool(*value),
        Value::Number(number) => match (number.as_i64(), number.as_u64()) {
            (Some(value), _) => JsonTree::Signed(value),
            (None, Some(value)) => JsonTree::Unsigned(value),
            (None, None) => JsonTree::Double(number.as_f64().unwrap_or_default().to_bits()),
        },
        Value::String(value) => JsonTree::Text(value.clone()),
        Value::Array(items) => JsonTree::List(items.iter().map(tree_of).collect()),
        Value::Object(fields) => JsonTree::Object(
            fields.iter().map(|(name, value)| (name.clone(), tree_of(value))).collect(),
        ),
    }
}

// ---------------------------------------------------------------------------
// Reading a tree
// ---------------------------------------------------------------------------

/// Whether a field has this name.
pub open spec fn is_named(name: Seq<char>) -> spec_fn((Seq<char>, JsonTreeView)) -> bool {
    |field: (Seq<char>, JsonTreeView)| field.0 == name
}

/// The field of an object with this name.
pub open spec fn field(tree: JsonTreeView, name: Seq<char>) -> Option<JsonTreeView> {
    match tree {
        JsonTreeView::Object(fields) => match sequence::find_first(fields, is_named(name)) {
            Some(found) => Some(found.1),
            None => None,
        },
        _ => None,
    }
}

/// The field of a field.
pub open spec fn inner_field(tree: JsonTreeView, outer: Seq<char>, inner: Seq<char>) -> Option<
    JsonTreeView,
> {
    match field(tree, outer) {
        Some(found) => field(found, inner),
        None => None,
    }
}

/// The text of a field.
pub open spec fn text_field(tree: JsonTreeView, name: Seq<char>) -> Option<Seq<char>> {
    match field(tree, name) {
        Some(JsonTreeView::Text(value)) => Some(value),
        _ => None,
    }
}

/// A tree as an unsigned number.
pub open spec fn unsigned(tree: JsonTreeView) -> Option<u64> {
    match tree {
        JsonTreeView::Unsigned(value) => Some(value),
        JsonTreeView::Signed(value) => if value >= 0 {
            Some(value as u64)
        } else {
            None
        },
        _ => None,
    }
}

/// The unsigned number of a field.
pub open spec fn number_field(tree: JsonTreeView, name: Seq<char>) -> Option<u64> {
    match field(tree, name) {
        Some(found) => unsigned(found),
        None => None,
    }
}

/// The items of a tree that is a list.
pub open spec fn list(tree: Option<JsonTreeView>) -> Option<Seq<JsonTreeView>> {
    match tree {
        Some(JsonTreeView::List(items)) => Some(items),
        _ => None,
    }
}

/// The fields of a tree that is an object.
pub open spec fn object(tree: Option<JsonTreeView>) -> Option<Seq<(Seq<char>, JsonTreeView)>> {
    match tree {
        Some(JsonTreeView::Object(fields)) => Some(fields),
        _ => None,
    }
}

/// Whether the bits of a double are those of a finite number.
pub open spec fn finite_bits(bits: u64) -> bool {
    (bits / 0x10000000000000) % 0x800 != 0x7ff
}

/// Whether a tree is a finite number.
pub open spec fn is_finite_number(tree: JsonTreeView) -> bool {
    match tree {
        JsonTreeView::Signed(_) => true,
        JsonTreeView::Unsigned(_) => true,
        JsonTreeView::Double(bits) => finite_bits(bits),
        _ => false,
    }
}

impl JsonTree {
    /// The field with this name.
    #[verifier::loop_isolation(false)]
    pub fn get(&self, name: &str) -> (r: Option<&JsonTree>)
        ensures
            r.deep_view() == field(self@, name@),
            r matches Some(found) ==> (in_order(self@) ==> in_order(found@)),
    {
        match self {
            JsonTree::Object(fields) => {
                let ghost all = fields_view(fields@);
                let ghost p = is_named(name@);
                proof {
                    lemma_fields_view(fields@);
                }
                let mut i: usize = 0;
                while i < fields.len()
                    invariant
                        i <= fields.len(),
                        forall|j: int| 0 <= j < i ==> !p(#[trigger] all[j]),
                    decreases fields.len() - i,
                {
                    assert(all[i as int] == (fields@[i as int].0@, tree_view(fields@[i as int].1)));
                    if text::same(fields[i].0.as_str(), name) {
                        proof {
                            sequence::lemma_find_first_at(all, p, i as int);
                            if in_order(self@) {
                                lemma_field_in_order(all, i as int);
                            }
                        }
                        return Some(&fields[i].1);
                    }
                    i += 1;
                }
                proof {
                    sequence::lemma_find_first_none(all, p);
                }
                None
            },
            _ => None,
        }
    }

    /// The text of a tree that is one.
    pub fn as_str(&self) -> (r: Option<&str>)
        ensures
            r.deep_view() == (match self@ {
                JsonTreeView::Text(value) => Some(value),
                _ => None,
            }),
    {
        match self {
            JsonTree::Text(value) => Some(value.as_str()),
            _ => None,
        }
    }

    /// The items of a tree that is a list.
    pub fn as_list(&self) -> (r: Option<&Vec<JsonTree>>)
        ensures
            r.deep_view() == list(Some(self@)),
    {
        match self {
            JsonTree::List(items) => {
                proof {
                    lemma_items_view(items@);
                    assert(items.deep_view() =~= items_view(items@));
                }
                Some(items)
            },
            _ => None,
        }
    }

    /// The fields of a tree that is an object.
    pub fn as_object(&self) -> (r: Option<&Vec<(String, JsonTree)>>)
        ensures
            r.deep_view() == object(Some(self@)),
    {
        match self {
            JsonTree::Object(fields) => {
                proof {
                    lemma_fields_view(fields@);
                    assert(fields.deep_view() =~= fields_view(fields@));
                }
                Some(fields)
            },
            _ => None,
        }
    }

    /// The items of a field that is a list.
    pub fn list_field(&self, name: &str) -> (r: Option<&Vec<JsonTree>>)
        ensures
            r.deep_view() == list(field(self@, name@)),
    {
        match self.get(name) {
            Some(found) => found.as_list(),
            None => None,
        }
    }

    /// The items of a field of a field, where it is a list.
    pub fn inner_list(&self, outer: &str, inner: &str) -> (r: Option<&Vec<JsonTree>>)
        ensures
            r.deep_view() == list(inner_field(self@, outer@, inner@)),
    {
        match self.get(outer) {
            Some(found) => found.list_field(inner),
            None => None,
        }
    }

    /// The tree as an unsigned number.
    pub fn as_u64(&self) -> (r: Option<u64>)
        ensures
            r == unsigned(self@),
    {
        match self {
            JsonTree::Unsigned(value) => Some(*value),
            JsonTree::Signed(value) => if *value >= 0 {
                Some(*value as u64)
            } else {
                None
            },
            _ => None,
        }
    }

    /// Whether the tree is a finite number.
    pub fn is_finite_number(&self) -> (r: bool)
        ensures
            r == is_finite_number(self@),
    {
        match self {
            JsonTree::Signed(_) => true,
            JsonTree::Unsigned(_) => true,
            JsonTree::Double(bits) => (*bits / 0x10000000000000) % 0x800 != 0x7ff,
            _ => false,
        }
    }

    /// The text of a field.
    pub fn text_field(&self, name: &str) -> (r: Option<&str>)
        ensures
            r.deep_view() == text_field(self@, name@),
    {
        match self.get(name) {
            Some(found) => found.as_str(),
            None => None,
        }
    }

    /// The unsigned number of a field.
    pub fn number_field(&self, name: &str) -> (r: Option<u64>)
        ensures
            r == number_field(self@, name@),
    {
        match self.get(name) {
            Some(found) => found.as_u64(),
            None => None,
        }
    }
}

/// A field of a tree that is in order is in order.
pub proof fn lemma_field_in_order(fields: Seq<(Seq<char>, JsonTreeView)>, i: int)
    requires
        fields_in_order(fields),
        0 <= i < fields.len(),
    ensures
        in_order(fields[i].1),
    decreases fields.len(),
{
    if i < fields.len() - 1 {
        lemma_field_in_order(fields.drop_last(), i);
        assert(fields.drop_last()[i] == fields[i]);
    }
}

/// An item of a list that is in order is in order.
pub proof fn lemma_item_in_order(items: Seq<JsonTreeView>, i: int)
    requires
        all_in_order(items),
        0 <= i < items.len(),
    ensures
        in_order(items[i]),
    decreases items.len(),
{
    if i < items.len() - 1 {
        lemma_item_in_order(items.drop_last(), i);
        assert(items.drop_last()[i] == items[i]);
    }
}

// ---------------------------------------------------------------------------
// The digest of a tree
// ---------------------------------------------------------------------------

/// What is said of a number that has no place in a digest.
pub open spec fn not_finite() -> Seq<char> {
    "contract digest cannot encode a non-finite number"@
}

/// Bytes behind their length.
pub open spec fn length_prefixed(payload: Seq<u8>) -> Seq<u8> {
    arithmetic::high_first(payload.len() as u64) + payload
}

/// A signed number in decimal.
pub open spec fn signed_decimal(value: i64) -> Seq<char> {
    if value >= 0 {
        text::decimal(value as nat)
    } else {
        "-"@ + text::decimal((-value) as nat)
    }
}

/// A text behind its length, marked as a text.
pub open spec fn encoded_text(value: Seq<char>) -> Seq<u8> {
    seq![0x73u8] + length_prefixed(vstd::utf8::encode_utf8(value))
}

/// The bytes that stand for a tree: a mark for its kind, then what it holds, each part behind its
/// length. The fields of an object stand in the order of their names.
pub open spec fn encoded(tree: JsonTreeView) -> Result<Seq<u8>, Seq<char>>
    decreases tree,
{
    match tree {
        JsonTreeView::Null => Ok(seq![0x6eu8]),
        JsonTreeView::Bool(value) => Ok(
            seq![
                if value {
                    0x74u8
                } else {
                    0x66u8
                },
            ],
        ),
        JsonTreeView::Signed(value) => Ok(
            seq![0x69u8] + length_prefixed(vstd::utf8::encode_utf8(signed_decimal(value))),
        ),
        JsonTreeView::Unsigned(value) => Ok(
            seq![0x69u8] + length_prefixed(vstd::utf8::encode_utf8(text::decimal(value as nat))),
        ),
        JsonTreeView::Double(bits) => if finite_bits(bits) {
            Ok(seq![0x64u8] + arithmetic::high_first(bits))
        } else {
            Err(not_finite())
        },
        JsonTreeView::Text(value) => Ok(encoded_text(value)),
        JsonTreeView::List(items) => match encoded_items(items) {
            Err(error) => Err(error),
            Ok(bytes) => Ok(seq![0x6cu8] + arithmetic::high_first(items.len() as u64) + bytes),
        },
        JsonTreeView::Object(fields) => match encoded_fields(fields) {
            Err(error) => Err(error),
            Ok(bytes) => Ok(seq![0x6fu8] + arithmetic::high_first(fields.len() as u64) + bytes),
        },
    }
}

/// The bytes that stand for the items of a list.
pub open spec fn encoded_items(items: Seq<JsonTreeView>) -> Result<Seq<u8>, Seq<char>>
    decreases items,
{
    if items.len() == 0 {
        Ok(Seq::empty())
    } else {
        match encoded_items(items.drop_last()) {
            Err(error) => Err(error),
            Ok(front) => match encoded(items.last()) {
                Err(error) => Err(error),
                Ok(last) => Ok(front + last),
            },
        }
    }
}

/// The bytes that stand for the fields of an object.
pub open spec fn encoded_fields(fields: Seq<(Seq<char>, JsonTreeView)>) -> Result<
    Seq<u8>,
    Seq<char>,
>
    decreases fields,
{
    if fields.len() == 0 {
        Ok(Seq::empty())
    } else {
        match encoded_fields(fields.drop_last()) {
            Err(error) => Err(error),
            Ok(front) => match encoded(fields.last().1) {
                Err(error) => Err(error),
                Ok(last) => Ok(front + encoded_text(fields.last().0) + last),
            },
        }
    }
}

proof fn lemma_encoded_items_error(items: Seq<JsonTreeView>, i: int)
    requires
        0 <= i <= items.len(),
        encoded_items(items.take(i)) is Err,
    ensures
        encoded_items(items) == encoded_items(items.take(i)),
    decreases items.len() - i,
{
    if i < items.len() {
        assert(items.take(i + 1).drop_last() =~= items.take(i));
        lemma_encoded_items_error(items, i + 1);
    } else {
        assert(items.take(i) =~= items);
    }
}

proof fn lemma_encoded_fields_error(fields: Seq<(Seq<char>, JsonTreeView)>, i: int)
    requires
        0 <= i <= fields.len(),
        encoded_fields(fields.take(i)) is Err,
    ensures
        encoded_fields(fields) == encoded_fields(fields.take(i)),
    decreases fields.len() - i,
{
    if i < fields.len() {
        assert(fields.take(i + 1).drop_last() =~= fields.take(i));
        lemma_encoded_fields_error(fields, i + 1);
    } else {
        assert(fields.take(i) =~= fields);
    }
}

fn append_bytes(out: &mut Vec<u8>, bytes: &Vec<u8>)
    ensures
        final(out)@ == old(out)@ + bytes@,
{
    out.extend_from_slice(bytes.as_slice());
}

/// Adds bytes behind their length.
fn push_length_prefixed(out: &mut Vec<u8>, payload: &str)
    ensures
        final(out)@ == old(out)@ + length_prefixed(vstd::utf8::encode_utf8(payload@)),
{
    let bytes: &[u8] = payload.as_bytes();
    let ghost start = out@;
    append_bytes(out, &arithmetic::big_endian(bytes.len() as u64));
    out.extend_from_slice(bytes);
    assert(out@ =~= start + length_prefixed(vstd::utf8::encode_utf8(payload@)));
}

/// Adds a text behind its length, marked as a text.
fn push_text(out: &mut Vec<u8>, value: &str)
    ensures
        final(out)@ == old(out)@ + encoded_text(value@),
{
    let ghost start = out@;
    out.push(0x73);
    push_length_prefixed(out, value);
    assert(out@ =~= start + encoded_text(value@));
}

fn signed_text(value: i64) -> (r: String)
    ensures
        r@ == signed_decimal(value),
{
    if value >= 0 {
        text::decimal_text(value as u128)
    } else {
        let magnitude: u128 = (-(value as i128)) as u128;
        Message::new("-").text(text::decimal_text(magnitude).as_str()).done()
    }
}

/// Adds the bytes that stand for a tree.
#[verifier::loop_isolation(false)]
pub fn update_json_tree_digest(out: &mut Vec<u8>, value: &JsonTree) -> (r: Result<(), String>)
    ensures
        match (r, encoded(value@)) {
            (Ok(_), Ok(bytes)) => final(out)@ == old(out)@ + bytes,
            (Err(error), Err(expected)) => error@ == expected,
            _ => false,
        },
    decreases value,
{
    let ghost start = out@;
    match value {
        JsonTree::Null => {
            out.push(0x6e);
            assert(out@ =~= start + seq![0x6eu8]);
            Ok(())
        },
        JsonTree::Bool(value) => {
            let mark: u8 = if *value {
                0x74
            } else {
                0x66
            };
            out.push(mark);
            assert(out@ =~= start + seq![mark]);
            Ok(())
        },
        JsonTree::Signed(value) => {
            out.push(0x69);
            push_length_prefixed(out, signed_text(*value).as_str());
            assert(out@ =~= start + (seq![0x69u8] + length_prefixed(
                vstd::utf8::encode_utf8(signed_decimal(*value)),
            )));
            Ok(())
        },
        JsonTree::Unsigned(value) => {
            out.push(0x69);
            push_length_prefixed(out, text::decimal_text(*value as u128).as_str());
            assert(out@ =~= start + (seq![0x69u8] + length_prefixed(
                vstd::utf8::encode_utf8(text::decimal(*value as nat)),
            )));
            Ok(())
        },
        JsonTree::Double(bits) => {
            if (*bits / 0x10000000000000) % 0x800 == 0x7ff {
                return Err("contract digest cannot encode a non-finite number".to_string());
            }
            out.push(0x64);
            append_bytes(out, &arithmetic::big_endian(*bits));
            assert(out@ =~= start + (seq![0x64u8] + arithmetic::high_first(*bits)));
            Ok(())
        },
        JsonTree::Text(value) => {
            push_text(out, value.as_str());
            Ok(())
        },
        JsonTree::List(items) => {
            let ghost all = items_view(items@);
            proof {
                lemma_items_view(items@);
            }
            out.push(0x6c);
            append_bytes(out, &arithmetic::big_endian(items.len() as u64));
            let ghost head = out@;
            assert(head =~= start + (seq![0x6cu8] + arithmetic::high_first(
                items@.len() as u64,
            )));
            let mut i: usize = 0;
            assert(all.take(0) =~= Seq::empty());
            assert(head + Seq::<u8>::empty() =~= head);
            while i < items.len()
                invariant
                    i <= items.len(),
                    encoded_items(all.take(i as int)) is Ok,
                    out@ == head + encoded_items(all.take(i as int))->Ok_0,
                decreases items.len() - i,
            {
                let ghost front = encoded_items(all.take(i as int))->Ok_0;
                proof {
                    assert(all[i as int] == tree_view(items@[i as int]));
                    assert(all.take(i + 1).drop_last() =~= all.take(i as int));
                    if encoded_items(all.take(i + 1)) is Err {
                        lemma_encoded_items_error(all, i + 1);
                    }
                }
                match update_json_tree_digest(out, &items[i]) {
                    Err(error) => {
                        return Err(error);
                    },
                    Ok(()) => {},
                }
                assert(out@ =~= head + (front + encoded(all[i as int])->Ok_0));
                i += 1;
            }
            assert(all.take(all.len() as int) =~= all);
            assert(out@ =~= start + encoded(value@)->Ok_0);
            Ok(())
        },
        JsonTree::Object(fields) => {
            let ghost all = fields_view(fields@);
            proof {
                lemma_fields_view(fields@);
            }
            out.push(0x6f);
            append_bytes(out, &arithmetic::big_endian(fields.len() as u64));
            let ghost head = out@;
            assert(head =~= start + (seq![0x6fu8] + arithmetic::high_first(
                fields@.len() as u64,
            )));
            let mut i: usize = 0;
            assert(all.take(0) =~= Seq::empty());
            assert(head + Seq::<u8>::empty() =~= head);
            while i < fields.len()
                invariant
                    i <= fields.len(),
                    encoded_fields(all.take(i as int)) is Ok,
                    out@ == head + encoded_fields(all.take(i as int))->Ok_0,
                decreases fields.len() - i,
            {
                let ghost front = encoded_fields(all.take(i as int))->Ok_0;
                let entry = &fields[i];
                proof {
                    assert(all[i as int] == (entry.0@, tree_view(entry.1)));
                    assert(all.take(i + 1).drop_last() =~= all.take(i as int));
                    if encoded_fields(all.take(i + 1)) is Err {
                        lemma_encoded_fields_error(all, i + 1);
                    }
                }
                push_text(out, entry.0.as_str());
                match update_json_tree_digest(out, &entry.1) {
                    Err(error) => {
                        return Err(error);
                    },
                    Ok(()) => {},
                }
                assert(out@ =~= head + (front + encoded_text(all[i as int].0) + encoded(
                    all[i as int].1,
                )->Ok_0));
                i += 1;
            }
            assert(all.take(all.len() as int) =~= all);
            assert(out@ =~= start + encoded(value@)->Ok_0);
            Ok(())
        },
    }
}

/// The digest of a tree, in hexadecimal.
pub open spec fn tree_digest(tree: JsonTreeView) -> Result<Seq<char>, Seq<char>> {
    match encoded(tree) {
        Err(error) => Err(error),
        Ok(bytes) => Ok(digest::hex(digest::sha256(bytes))),
    }
}

/// The digest of a tree, in hexadecimal.
pub fn json_tree_sha256(value: &JsonTree) -> (r: Result<String, String>)
    ensures
        sequence::outcome(r) == tree_digest(value@),
{
    let mut bytes: Vec<u8> = Vec::new();
    match update_json_tree_digest(&mut bytes, value) {
        Err(error) => {
            return Err(error);
        },
        Ok(()) => {},
    }
    assert(bytes@ =~= encoded(value@)->Ok_0);
    Ok(digest::sha256_hex(bytes.as_slice()))
}

} // verus!
