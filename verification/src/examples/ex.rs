//! A callable with a named argument whose default is filled in by the
//! callable itself: the builder of its arguments starts with `None`.

use vstd::prelude::*;
use vstd::string::StringExecFns;
use crate::base::AsOption;
use crate::base::Deconstruct;
use crate::base::Unset;

verus! {

/// What `is_a_test` returns: a letter to `name`, or to Bob where no name is
/// given.
pub open spec fn spec_is_a_test(name: Option<String>, message: String) -> Seq<char> {
    "1) Dear "@ + (match name {
        Some(given) => given@,
        None => "Bob"@,
    }) + ", "@ + message@ + " The end."@
}

pub fn is_a_test(name: Option<String>, message: String) -> (r: String)
    ensures
        r@ == spec_is_a_test(name, message),
{
    let name = if let Some(given) = name {
        given
    } else {
        "Bob".to_owned()
    };
    let mut r = String::from_str("1) Dear ");
    r.append(name.as_str());
    r.append(", ");
    r.append(message.as_str());
    r.append(" The end.");
    r
}

/// The arguments of `is_a_test`.
#[allow(non_camel_case_types)]
pub struct Is_a_test {
    pub name: Option<String>,
    pub message: String,
}

/// The builder of the arguments of `is_a_test`: one slot per argument.
#[allow(non_camel_case_types)]
pub struct is_a_testBuilder<Name, Message> {
    name: Name,
    message: Message,
}

impl<Name, Message> is_a_testBuilder<Name, Message> {
    /// What the slot of `name` holds.
    pub closed spec fn slot_name(self) -> Name {
        self.name
    }

    /// What the slot of `message` holds.
    pub closed spec fn slot_message(self) -> Message {
        self.message
    }
}

impl Is_a_test {
    /// A builder that holds the defaults and nothing else.
    pub fn builder() -> (r: is_a_testBuilder<Option<String>, Unset>)
        ensures
            r.slot_name() == None::<String>,
    {
        is_a_testBuilder::new()
    }
}

impl is_a_testBuilder<Unset, Unset> {
    /// A builder that holds the defaults and nothing else.
    pub fn new() -> (r: is_a_testBuilder<Option<String>, Unset>)
        ensures
            r.slot_name() == None::<String>,
    {
        is_a_testBuilder { name: None, message: Unset }
    }
}

impl<Name, Message> is_a_testBuilder<Name, Message> {
    /// Sets `name`, whether or not it has been set before.
    pub fn name<VALUE: AsOption<String>>(self, value: VALUE) -> (r: is_a_testBuilder<
        Option<String>,
        Message,
    >)
        ensures
            r.slot_name() == value.as_option_spec(),
            r.slot_message() == self.slot_message(),
    {
        let value: Option<String> = value.as_option();
        is_a_testBuilder { name: value, message: self.message }
    }
}

impl<Name> is_a_testBuilder<Name, Unset> {
    /// Sets `message`.
    pub fn message(self, value: String) -> (r: is_a_testBuilder<Name, String>)
        ensures
            r.slot_name() == self.slot_name(),
            r.slot_message() == value,
    {
        is_a_testBuilder { name: self.name, message: value }
    }
}

impl is_a_testBuilder<Option<String>, String> {
    /// The arguments that the slots hold. They exist only for a builder in
    /// which every slot is set.
    pub fn build(self) -> (r: Is_a_test)
        ensures
            r.name == self.slot_name(),
            r.message == self.slot_message(),
    {
        Is_a_test { name: self.name, message: self.message }
    }
}

impl Deconstruct<(Option<String>, String)> for is_a_testBuilder<Option<String>, String> {
    open spec fn deconstruct_spec(self) -> (Option<String>, String) {
        (self.slot_name(), self.slot_message())
    }

    fn deconstruct(self) -> (r: (Option<String>, String)) {
        (self.name, self.message)
    }
}

} // verus!
