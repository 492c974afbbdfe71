//! A message as it was received from a queue.

use vstd::prelude::*;

verus! {

/// The value of one message attribute, in the fields in which the queue service carries it.
#[derive(Clone, Debug, PartialEq, Eq)]
pub struct AttributeValue {
    /// The type that the sender declared: `String`, `Number`, `Binary` or a custom one.
    pub data_type: String,
    /// The value as text, where the attribute has one.
    pub string_value: Option<String>,
    /// The value as bytes, where the attribute has one.
    pub binary_value: Option<Vec<u8>>,
    /// A list of texts, where the service hands one on.
    pub string_list_values: Option<Vec<String>>,
    /// A list of byte strings, where the service hands one on.
    pub binary_list_values: Option<Vec<Vec<u8>>>,
}

/// What an [`AttributeValue`] holds.
pub ghost struct AttributeValueView {
    pub data_type: Seq<char>,
    pub string_value: Option<Seq<char>>,
    pub binary_value: Option<Seq<u8>>,
    pub string_list_values: Option<Seq<Seq<char>>>,
    pub binary_list_values: Option<Seq<Seq<u8>>>,
}

impl View for AttributeValue {
    type V = AttributeValueView;

    open spec fn view(&self) -> AttributeValueView {
        AttributeValueView {
            data_type: self.data_type@,
            string_value: match self.string_value {
                Some(text) => Some(text@),
                None => None,
            },
            binary_value: match self.binary_value {
                Some(bytes) => Some(bytes@),
                None => None,
            },
            string_list_values: match self.string_list_values {
                Some(list) => Some(list@.map_values(|text: String| text@)),
                None => None,
            },
            binary_list_values: match self.binary_list_values {
                Some(list) => Some(list@.map_values(|bytes: Vec<u8>| bytes@)),
                None => None,
            },
        }
    }
}

/// A named attribute of a message.
#[derive(Clone, Debug, PartialEq, Eq)]
pub struct Attribute {
    pub name: String,
    pub value: AttributeValue,
}

/// What a message is, whatever the order in which its attributes are stored.
pub ghost struct MessageView {
    pub id: Seq<char>,
    pub receipt_handle: Seq<char>,
    pub body: Seq<char>,
    pub attributes: Map<Seq<char>, AttributeValueView>,
}

/// A received message: the identifier and the receipt handle that the source queue gave it,
/// its body, and its attributes by name.
#[derive(Debug, PartialEq, Eq)]
pub struct Message {
    id: String,
    receipt_handle: String,
    body: String,
    attributes: Vec<Attribute>,
}

/// Whether `attributes` holds no name twice.
pub open spec fn distinct_names(attributes: Seq<Attribute>) -> bool {
    forall|i: int, j: int|
        0 <= i < j < attributes.len() ==> (#[trigger] attributes[i]).name@ != (
        #[trigger] attributes[j]).name@
}

/// Whether `attributes` holds an attribute called `name` at position `i`.
pub open spec fn named_at(attributes: Seq<Attribute>, name: Seq<char>, i: int) -> bool {
    0 <= i < attributes.len() && attributes[i].name@ == name
}

/// The mapping from names to values that a list of attributes stands for.
pub open spec fn attribute_map(attributes: Seq<Attribute>) -> Map<
    Seq<char>,
    AttributeValueView,
> {
    Map::new(
        |name: Seq<char>| exists|i: int| named_at(attributes, name, i),
        |name: Seq<char>| attributes[choose|i: int| named_at(attributes, name, i)].value@,
    )
}

/// In a list without a repeated name, the attribute at position `i` is the one that the
/// mapping gives for its name.
pub proof fn lemma_attribute_map_at(attributes: Seq<Attribute>, i: int)
    requires
        distinct_names(attributes),
        0 <= i < attributes.len(),
    ensures
        attribute_map(attributes).contains_key(attributes[i].name@),
        attribute_map(attributes)[attributes[i].name@] == attributes[i].value@,
{
    assert(named_at(attributes, attributes[i].name@, i));
}

/// The list that holds `attribute` in place of the attribute of that name, or behind the
/// others where the name is new.
spec fn put(attributes: Seq<Attribute>, place: Option<int>, attribute: Attribute) -> Seq<
    Attribute,
> {
    match place {
        Some(i) => attributes.update(i, attribute),
        None => attributes.push(attribute),
    }
}

/// Putting an attribute at the place of its name keeps every name single, and changes the
/// mapping at that name alone.
proof fn lemma_put(attributes: Seq<Attribute>, place: Option<int>, attribute: Attribute)
    requires
        distinct_names(attributes),
        place matches Some(i) ==> named_at(attributes, attribute.name@, i),
        place is None ==> forall|i: int| !named_at(attributes, attribute.name@, i),
    ensures
        distinct_names(put(attributes, place, attribute)),
        attribute_map(put(attributes, place, attribute)) == attribute_map(attributes).insert(
            attribute.name@,
            attribute.value@,
        ),
{
    let after = put(attributes, place, attribute);
    let at: int = match place {
        Some(i) => i,
        None => attributes.len() as int,
    };
    assert forall|i: int| 0 <= i < after.len() && i != at implies after[i] == attributes[i] by {}
    assert forall|i: int, j: int| 0 <= i < j < after.len() implies (#[trigger] after[i]).name@ != (
    #[trigger] after[j]).name@ by {
        if place is None && j == at {
            assert(!named_at(attributes, attribute.name@, i));
        }
    }
    let target = attribute_map(attributes).insert(attribute.name@, attribute.value@);
    assert forall|n: Seq<char>| attribute_map(after).contains_key(n) <==> target.contains_key(
        n,
    ) by {
        if attribute_map(after).contains_key(n) && n != attribute.name@ {
            let k = choose|k: int| named_at(after, n, k);
            assert(named_at(attributes, n, k));
        }
        if target.contains_key(n) {
            if n == attribute.name@ {
                assert(named_at(after, n, at));
            } else {
                let k = choose|k: int| named_at(attributes, n, k);
                assert(named_at(after, n, k));
            }
        }
    }
    assert forall|n: Seq<char>| attribute_map(after).contains_key(n) implies attribute_map(
        after,
    )[n] == target[n] by {
        let k = choose|k: int| named_at(after, n, k);
        lemma_attribute_map_at(after, k);
        if n != attribute.name@ {
            lemma_attribute_map_at(attributes, k);
        } else {
            lemma_attribute_map_at(after, at);
        }
    }
}

impl View for Message {
    type V = MessageView;

    closed spec fn view(&self) -> MessageView {
        MessageView {
            id: self.id@,
            receipt_handle: self.receipt_handle@,
            body: self.body@,
            attributes: attribute_map(self.attributes@),
        }
    }
}

impl Message {
    #[verifier::type_invariant]
    spec fn names_occur_once(self) -> bool {
        distinct_names(self.attributes@)
    }

    /// A message without attributes.
    pub fn new(id: String, receipt_handle: String, body: String) -> (message: Message)
        ensures
            message@ == (MessageView {
                id: id@,
                receipt_handle: receipt_handle@,
                body: body@,
                attributes: Map::empty(),
            }),
    {
        let message = Message { id, receipt_handle, body, attributes: Vec::new() };
        assert(attribute_map(message.attributes@) =~= Map::empty());
        message
    }

    /// The identifier that the source queue gave the message when it handed it out.
    pub fn id(&self) -> (id: &String)
        ensures
            id@ == self@.id,
    {
        &self.id
    }

    /// The token that deletes this receipt of the message, or changes its visibility.
    pub fn receipt_handle(&self) -> (receipt_handle: &String)
        ensures
            receipt_handle@ == self@.receipt_handle,
    {
        &self.receipt_handle
    }

    /// The payload.
    pub fn body(&self) -> (body: &String)
        ensures
            body@ == self@.body,
    {
        &self.body
    }

    /// The attributes as a list, each name once.
    pub fn attributes(&self) -> (attributes: &Vec<Attribute>)
        ensures
            distinct_names(attributes@),
            attribute_map(attributes@) == self@.attributes,
    {
        proof {
            use_type_invariant(self);
        }
        &self.attributes
    }

    /// The position of the attribute called `name`.
    fn position(&self, name: &String) -> (position: Option<usize>)
        ensures
            position matches Some(i) ==> named_at(self.attributes@, name@, i as int),
            position is None ==> forall|i: int| !named_at(self.attributes@, name@, i),
    {
        let mut i: usize = 0;
        while i < self.attributes.len()
            invariant
                i <= self.attributes.len(),
                forall|k: int| 0 <= k < i ==> !named_at(self.attributes@, name@, k),
            decreases self.attributes.len() - i,
        {
            if self.attributes[i].name == *name {
                return Some(i);
            }
            i = i + 1;
        }
        None
    }

    /// The value of the attribute called `name`, where the message has one.
    pub fn attribute(&self, name: &String) -> (value: Option<&AttributeValue>)
        ensures
            value is Some <==> self@.attributes.contains_key(name@),
            value matches Some(found) ==> found@ == self@.attributes[name@],
    {
        match self.position(name) {
            Some(i) => {
                proof {
                    use_type_invariant(self);
                    lemma_attribute_map_at(self.attributes@, i as int);
                }
                Some(&self.attributes[i].value)
            },
            None => None,
        }
    }

    /// The message with the value `value` for the attribute called `name`, in place of the
    /// one it had, if it had one.
    pub fn with_attribute(self, name: String, value: AttributeValue) -> (message: Message)
        ensures
            message@ == (MessageView {
                attributes: self@.attributes.insert(name@, value@),
                ..self@
            }),
    {
        proof {
            use_type_invariant(&self);
        }
        let position = self.position(&name);
        let Message { id, receipt_handle, body, mut attributes } = self;
        let ghost before = attributes@;
        match position {
            Some(i) => {
                attributes.set(i, Attribute { name, value });
            },
            None => {
                attributes.push(Attribute { name, value });
            },
        }
        proof {
            let place = match position {
                Some(i) => Some(i as int),
                None => None,
            };
            lemma_put(before, place, Attribute { name, value });
        }
        Message { id, receipt_handle, body, attributes }
    }
}

} // verus!
