//! Three callables with named arguments, and the builders of their
//! arguments written out declaration by declaration.

use vstd::prelude::*;
use vstd::string::StringExecFns;
use crate::base::AsOption;
use crate::base::Deconstruct;
use crate::base::Unset;

verus! {

/// What `is_a_test` returns: a greeting of `name`, or of Bob where no name
/// is given.
pub open spec fn spec_is_a_test(name: Option<String>, message: String) -> Seq<char> {
    "1) Hello "@ + (match name {
        Some(given) => given@,
        None => "Bob"@,
    }) + ", "@ + message@ + " The end."@
}

pub fn is_a_test(name: Option<String>, message: String) -> (r: String)
    ensures
        r@ == spec_is_a_test(name, message),
{
    let name = if let Some(given) = name {
        given
    } else {
        "Bob".to_owned()
    };
    let mut r = String::from_str("1) Hello ");
    r.append(name.as_str());
    r.append(", ");
    r.append(message.as_str());
    r.append(" The end.");
    r
}

/// What `two_pos` returns: a greeting of `name` from `loc`, or of Bob where
/// no name is given.
pub open spec fn spec_two_pos(loc: String, message: String, name: Option<String>) -> Seq<char> {
    "1) From "@ + loc@ + ", hello "@ + (match name {
        Some(given) => given@,
        None => "Bob"@,
    }) + ", "@ + message@ + " The end."@
}

pub fn two_pos(loc: String, message: String, name: Option<String>) -> (r: String)
    ensures
        r@ == spec_two_pos(loc, message, name),
{
    let name = if let Some(given) = name {
        given
    } else {
        "Bob".to_owned()
    };
    let mut r = String::from_str("1) From ");
    r.append(loc.as_str());
    r.append(", hello ");
    r.append(name.as_str());
    r.append(", ");
    r.append(message.as_str());
    r.append(" The end.");
    r
}

/// How a file is to be opened: the settings that are passed on to whatever
/// opens it.
#[derive(Clone, Copy, Debug, PartialEq, Eq, Structural)]
pub struct OpenFlags {
    pub read: bool,
    pub write: bool,
    pub append: bool,
    pub truncate: bool,
    pub create: bool,
    pub create_new: bool,
}

/// The setting that an optional argument stands for: its value, or `false`
/// where none is given.
pub open spec fn spec_flag(given: Option<bool>) -> bool {
    match given {
        Some(value) => value,
        None => false,
    }
}

/// The settings that the arguments of `open_file` stand for.
pub open spec fn spec_open_flags(
    read: Option<bool>,
    write: Option<bool>,
    append: Option<bool>,
    truncate: Option<bool>,
    create: Option<bool>,
    create_new: Option<bool>,
) -> OpenFlags {
    OpenFlags {
        read: spec_flag(read),
        write: spec_flag(write),
        append: spec_flag(append),
        truncate: spec_flag(truncate),
        create: spec_flag(create),
        create_new: spec_flag(create_new),
    }
}

/// Opens the file at `path` with `open`, which is handed the path and the
/// settings that the other arguments stand for, and returns what `open`
/// returns.
pub fn open_file<P, H, F: FnOnce(P, OpenFlags) -> H>(
    path: P,
    read: Option<bool>,
    write: Option<bool>,
    append: Option<bool>,
    truncate: Option<bool>,
    create: Option<bool>,
    create_new: Option<bool>,
    open: F,
) -> (r: H)
    requires
        call_requires(
            open,
            (path, spec_open_flags(read, write, append, truncate, create, create_new)),
        ),
    ensures
        call_ensures(
            open,
            (path, spec_open_flags(read, write, append, truncate, create, create_new)),
            r,
        ),
{
    let read = if let Some(given) = read {
        given
    } else {
        false
    };
    let write = if let Some(given) = write {
        given
    } else {
        false
    };
    let append = if let Some(given) = append {
        given
    } else {
        false
    };
    let truncate = if let Some(given) = truncate {
        given
    } else {
        false
    };
    let create = if let Some(given) = create {
        given
    } else {
        false
    };
    let create_new = if let Some(given) = create_new {
        given
    } else {
        false
    };
    open(path, OpenFlags { read, write, append, truncate, create, create_new })
}

/// The arguments of `is_a_test`.
#[allow(non_camel_case_types)]
pub struct Is_a_test {
    pub name: Option<String>,
    pub message: String,
}

/// The builder of the arguments of `is_a_test`: one slot per argument.
#[allow(non_camel_case_types)]
pub struct is_a_testBuilder<Name, Message> {
    name: Name,
    message: Message,
}

impl<Name, Message> is_a_testBuilder<Name, Message> {
    /// What the slot of `name` holds.
    pub closed spec fn slot_name(self) -> Name {
        self.name
    }

    /// What the slot of `message` holds.
    pub closed spec fn slot_message(self) -> Message {
        self.message
    }
}

impl Is_a_test {
    /// A builder that holds the defaults and nothing else.
    pub fn builder() -> (r: is_a_testBuilder<Option<String>, Unset>)
        ensures
            r.slot_name() is Some && r.slot_name()->Some_0@ == "Bob"@,
    {
        is_a_testBuilder::new()
    }
}

impl is_a_testBuilder<Unset, Unset> {
    /// A builder that holds the defaults and nothing else.
    pub fn new() -> (r: is_a_testBuilder<Option<String>, Unset>)
        ensures
            r.slot_name() is Some && r.slot_name()->Some_0@ == "Bob"@,
    {
        is_a_testBuilder { name: Some("Bob".to_owned()), message: Unset }
    }
}

impl<Name, Message> is_a_testBuilder<Name, Message> {
    /// Sets `name`, whether or not it has been set before.
    pub fn name<VALUE: AsOption<String>>(self, value: VALUE) -> (r: is_a_testBuilder<
        Option<String>,
        Message,
    >)
        ensures
            r.slot_name() == value.as_option_spec(),
            r.slot_message() == self.slot_message(),
    {
        let value: Option<String> = value.as_option();
        is_a_testBuilder { name: value, message: self.message }
    }
}

impl<Name> is_a_testBuilder<Name, Unset> {
    /// Sets `message`.
    pub fn message(self, value: String) -> (r: is_a_testBuilder<Name, String>)
        ensures
            r.slot_name() == self.slot_name(),
            r.slot_message() == value,
    {
        is_a_testBuilder { name: self.name, message: value }
    }
}

impl is_a_testBuilder<Option<String>, String> {
    /// The arguments that the slots hold. They exist only for a builder in
    /// which every slot is set.
    pub fn build(self) -> (r: Is_a_test)
        ensures
            r.name == self.slot_name(),
            r.message == self.slot_message(),
    {
        Is_a_test { name: self.name, message: self.message }
    }
}

impl Deconstruct<(Option<String>, String)> for is_a_testBuilder<Option<String>, String> {
    open spec fn deconstruct_spec(self) -> (Option<String>, String) {
        (self.slot_name(), self.slot_message())
    }

    fn deconstruct(self) -> (r: (Option<String>, String)) {
        (self.name, self.message)
    }
}

/// The arguments of `two_pos`.
#[allow(non_camel_case_types)]
pub struct Two_pos {
    pub loc: String,
    pub message: String,
    pub name: Option<String>,
}

/// The builder of the arguments of `two_pos`: one slot per argument.
#[allow(non_camel_case_types)]
pub struct two_posBuilder<Loc, Message, Name> {
    loc: Loc,
    message: Message,
    name: Name,
}

impl<Loc, Message, Name> two_posBuilder<Loc, Message, Name> {
    /// What the slot of `loc` holds.
    pub closed spec fn slot_loc(self) -> Loc {
        self.loc
    }

    /// What the slot of `message` holds.
    pub closed spec fn slot_message(self) -> Message {
        self.message
    }

    /// What the slot of `name` holds.
    pub closed spec fn slot_name(self) -> Name {
        self.name
    }
}

impl Two_pos {
    /// A builder that holds the defaults and nothing else.
    pub fn builder() -> (r: two_posBuilder<Unset, Unset, Option<String>>)
        ensures
            r.slot_name() is Some && r.slot_name()->Some_0@ == "Bob"@,
    {
        two_posBuilder::new()
    }
}

impl two_posBuilder<Unset, Unset, Unset> {
    /// A builder that holds the defaults and nothing else.
    pub fn new() -> (r: two_posBuilder<Unset, Unset, Option<String>>)
        ensures
            r.slot_name() is Some && r.slot_name()->Some_0@ == "Bob"@,
    {
        two_posBuilder { loc: Unset, message: Unset, name: Some("Bob".to_owned()) }
    }
}

impl<Message, Name> two_posBuilder<Unset, Message, Name> {
    /// Sets `loc`, the next positional argument.
    pub fn next(self, value: String) -> (r: two_posBuilder<String, Message, Name>)
        ensures
            r.slot_loc() == value,
            r.slot_message() == self.slot_message(),
            r.slot_name() == self.slot_name(),
    {
        two_posBuilder { loc: value, message: self.message, name: self.name }
    }
}

impl<Name> two_posBuilder<String, Unset, Name> {
    /// Sets `message`, the next positional argument.
    pub fn next(self, value: String) -> (r: two_posBuilder<String, String, Name>)
        ensures
            r.slot_loc() == self.slot_loc(),
            r.slot_message() == value,
            r.slot_name() == self.slot_name(),
    {
        two_posBuilder { loc: self.loc, message: value, name: self.name }
    }
}

impl<Loc, Message, Name> two_posBuilder<Loc, Message, Name> {
    /// Sets `name`, whether or not it has been set before.
    pub fn name<VALUE: AsOption<String>>(self, value: VALUE) -> (r: two_posBuilder<
        Loc,
        Message,
        Option<String>,
    >)
        ensures
            r.slot_loc() == self.slot_loc(),
            r.slot_message() == self.slot_message(),
            r.slot_name() == value.as_option_spec(),
    {
        let value: Option<String> = value.as_option();
        two_posBuilder { loc: self.loc, message: self.message, name: value }
    }
}

impl two_posBuilder<String, String, Option<String>> {
    /// The arguments that the slots hold. They exist only for a builder in
    /// which every slot is set.
    pub fn build(self) -> (r: Two_pos)
        ensures
            r.loc == self.slot_loc(),
            r.message == self.slot_message(),
            r.name == self.slot_name(),
    {
        Two_pos { loc: self.loc, message: self.message, name: self.name }
    }
}

impl Deconstruct<
    (String, String, Option<String>),
> for two_posBuilder<String, String, Option<String>> {
    open spec fn deconstruct_spec(self) -> (String, String, Option<String>) {
        (self.slot_loc(), self.slot_message(), self.slot_name())
    }

    fn deconstruct(self) -> (r: (String, String, Option<String>)) {
        (self.loc, self.message, self.name)
    }
}

/// The arguments of `open_file`.
#[allow(non_camel_case_types)]
pub struct Open_file {
    pub path: String,
    pub read: Option<bool>,
    pub write: Option<bool>,
    pub append: Option<bool>,
    pub truncate: Option<bool>,
    pub create: Option<bool>,
    pub create_new: Option<bool>,
}

/// The builder of the arguments of `open_file`: one slot per argument.
#[allow(non_camel_case_types)]
pub struct open_fileBuilder<Path, Read, Write, Append, Truncate, Create, CreateNew> {
    path: Path,
    read: Read,
    write: Write,
    append: Append,
    truncate: Truncate,
    create: Create,
    create_new: CreateNew,
}

impl<
    Path,
    Read,
    Write,
    Append,
    Truncate,
    Create,
    CreateNew,
> open_fileBuilder<Path, Read, Write, Append, Truncate, Create, CreateNew> {
    /// What the slot of `path` holds.
    pub closed spec fn slot_path(self) -> Path {
        self.path
    }

    /// What the slot of `read` holds.
    pub closed spec fn slot_read(self) -> Read {
        self.read
    }

    /// What the slot of `write` holds.
    pub closed spec fn slot_write(self) -> Write {
        self.write
    }

    /// What the slot of `append` holds.
    pub closed spec fn slot_append(self) -> Append {
        self.append
    }

    /// What the slot of `truncate` holds.
    pub closed spec fn slot_truncate(self) -> Truncate {
        self.truncate
    }

    /// What the slot of `create` holds.
    pub closed spec fn slot_create(self) -> Create {
        self.create
    }

    /// What the slot of `create_new` holds.
    pub closed spec fn slot_create_new(self) -> CreateNew {
        self.create_new
    }
}

impl Open_file {
    /// A builder that holds the defaults and nothing else.
    pub fn builder() -> (r: open_fileBuilder<
        Unset,
        Option<bool>,
        Option<bool>,
        Option<bool>,
        Option<bool>,
        Option<bool>,
        Option<bool>,
    >)
        ensures
            r.slot_read() == Some(false),
            r.slot_write() == Some(false),
            r.slot_append() == Some(false),
            r.slot_truncate() == Some(false),
            r.slot_create() == Some(false),
            r.slot_create_new() == Some(false),
    {
        open_fileBuilder::new()
    }
}

impl open_fileBuilder<Unset, Unset, Unset, Unset, Unset, Unset, Unset> {
    /// A builder that holds the defaults and nothing else.
    pub fn new() -> (r: open_fileBuilder<
        Unset,
        Option<bool>,
        Option<bool>,
        Option<bool>,
        Option<bool>,
        Option<bool>,
        Option<bool>,
    >)
        ensures
            r.slot_read() == Some(false),
            r.slot_write() == Some(false),
            r.slot_append() == Some(false),
            r.slot_truncate() == Some(false),
            r.slot_create() == Some(false),
            r.slot_create_new() == Some(false),
    {
        open_fileBuilder {
            path: Unset,
            read: Some(false),
            write: Some(false),
            append: Some(false),
            truncate: Some(false),
            create: Some(false),
            create_new: Some(false),
        }
    }
}

impl<Read, Write, Append, Truncate, Create, CreateNew> open_fileBuilder<
    Unset,
    Read,
    Write,
    Append,
    Truncate,
    Create,
    CreateNew,
> {
    /// Sets `path`, the next positional argument.
    pub fn next(self, value: String) -> (r: open_fileBuilder<
        String,
        Read,
        Write,
        Append,
        Truncate,
        Create,
        CreateNew,
    >)
        ensures
            r.slot_path() == value,
            r.slot_read() == self.slot_read(),
            r.slot_write() == self.slot_write(),
            r.slot_append() == self.slot_append(),
            r.slot_truncate() == self.slot_truncate(),
            r.slot_create() == self.slot_create(),
            r.slot_create_new() == self.slot_create_new(),
    {
        open_fileBuilder {
            path: value,
            read: self.read,
            write: self.write,
            append: self.append,
            truncate: self.truncate,
            create: self.create,
            create_new: self.create_new,
        }
    }
}

impl<Path, Read, Write, Append, Truncate, Create, CreateNew> open_fileBuilder<
    Path,
    Read,
    Write,
    Append,
    Truncate,
    Create,
    CreateNew,
> {
    /// Sets `read`, whether or not it has been set before.
    pub fn read<VALUE: AsOption<bool>>(self, value: VALUE) -> (r: open_fileBuilder<
        Path,
        Option<bool>,
        Write,
        Append,
        Truncate,
        Create,
        CreateNew,
    >)
        ensures
            r.slot_path() == self.slot_path(),
            r.slot_read() == value.as_option_spec(),
            r.slot_write() == self.slot_write(),
            r.slot_append() == self.slot_append(),
            r.slot_truncate() == self.slot_truncate(),
            r.slot_create() == self.slot_create(),
            r.slot_create_new() == self.slot_create_new(),
    {
        let value: Option<bool> = value.as_option();
        open_fileBuilder {
            path: self.path,
            read: value,
            write: self.write,
            append: self.append,
            truncate: self.truncate,
            create: self.create,
            create_new: self.create_new,
        }
    }
}

impl<Path, Read, Write, Append, Truncate, Create, CreateNew> open_fileBuilder<
    Path,
    Read,
    Write,
    Append,
    Truncate,
    Create,
    CreateNew,
> {
    /// Sets `write`, whether or not it has been set before.
    pub fn write<VALUE: AsOption<bool>>(self, value: VALUE) -> (r: open_fileBuilder<
        Path,
        Read,
        Option<bool>,
        Append,
        Truncate,
        Create,
        CreateNew,
    >)
        ensures
            r.slot_path() == self.slot_path(),
            r.slot_read() == self.slot_read(),
            r.slot_write() == value.as_option_spec(),
            r.slot_append() == self.slot_append(),
            r.slot_truncate() == self.slot_truncate(),
            r.slot_create() == self.slot_create(),
            r.slot_create_new() == self.slot_create_new(),
    {
        let value: Option<bool> = value.as_option();
        open_fileBuilder {
            path: self.path,
            read: self.read,
            write: value,
            append: self.append,
            truncate: self.truncate,
            create: self.create,
            create_new: self.create_new,
        }
    }
}

impl<Path, Read, Write, Append, Truncate, Create, CreateNew> open_fileBuilder<
    Path,
    Read,
    Write,
    Append,
    Truncate,
    Create,
    CreateNew,
> {
    /// Sets `append`, whether or not it has been set before.
    pub fn append<VALUE: AsOption<bool>>(self, value: VALUE) -> (r: open_fileBuilder<
        Path,
        Read,
        Write,
        Option<bool>,
        Truncate,
        Create,
        CreateNew,
    >)
        ensures
            r.slot_path() == self.slot_path(),
            r.slot_read() == self.slot_read(),
            r.slot_write() == self.slot_write(),
            r.slot_append() == value.as_option_spec(),
            r.slot_truncate() == self.slot_truncate(),
            r.slot_create() == self.slot_create(),
            r.slot_create_new() == self.slot_create_new(),
    {
        let value: Option<bool> = value.as_option();
        open_fileBuilder {
            path: self.path,
            read: self.read,
            write: self.write,
            append: value,
            truncate: self.truncate,
            create: self.create,
            create_new: self.create_new,
        }
    }
}

impl<Path, Read, Write, Append, Truncate, Create, CreateNew> open_fileBuilder<
    Path,
    Read,
    Write,
    Append,
    Truncate,
    Create,
    CreateNew,
> {
    /// Sets `truncate`, whether or not it has been set before.
    pub fn truncate<VALUE: AsOption<bool>>(self, value: VALUE) -> (r: open_fileBuilder<
        Path,
        Read,
        Write,
        Append,
        Option<bool>,
        Create,
        CreateNew,
    >)
        ensures
            r.slot_path() == self.slot_path(),
            r.slot_read() == self.slot_read(),
            r.slot_write() == self.slot_write(),
            r.slot_append() == self.slot_append(),
            r.slot_truncate() == value.as_option_spec(),
            r.slot_create() == self.slot_create(),
            r.slot_create_new() == self.slot_create_new(),
    {
        let value: Option<bool> = value.as_option();
        open_fileBuilder {
            path: self.path,
            read: self.read,
            write: self.write,
            append: self.append,
            truncate: value,
            create: self.create,
            create_new: self.create_new,
        }
    }
}

impl<Path, Read, Write, Append, Truncate, Create, CreateNew> open_fileBuilder<
    Path,
    Read,
    Write,
    Append,
    Truncate,
    Create,
    CreateNew,
> {
    /// Sets `create`, whether or not it has been set before.
    pub fn create<VALUE: AsOption<bool>>(self, value: VALUE) -> (r: open_fileBuilder<
        Path,
        Read,
        Write,
        Append,
        Truncate,
        Option<bool>,
        CreateNew,
    >)
        ensures
            r.slot_path() == self.slot_path(),
            r.slot_read() == self.slot_read(),
            r.slot_write() == self.slot_write(),
            r.slot_append() == self.slot_append(),
            r.slot_truncate() == self.slot_truncate(),
            r.slot_create() == value.as_option_spec(),
            r.slot_create_new() == self.slot_create_new(),
    {
        let value: Option<bool> = value.as_option();
        open_fileBuilder {
            path: self.path,
            read: self.read,
            write: self.write,
            append: self.append,
            truncate: self.truncate,
            create: value,
            create_new: self.create_new,
        }
    }
}

impl<Path, Read, Write, Append, Truncate, Create, CreateNew> open_fileBuilder<
    Path,
    Read,
    Write,
    Append,
    Truncate,
    Create,
    CreateNew,
> {
    /// Sets `create_new`, whether or not it has been set before.
    pub fn create_new<VALUE: AsOption<bool>>(self, value: VALUE) -> (r: open_fileBuilder<
        Path,
        Read,
        Write,
        Append,
        Truncate,
        Create,
        Option<bool>,
    >)
        ensures
            r.slot_path() == self.slot_path(),
            r.slot_read() == self.slot_read(),
            r.slot_write() == self.slot_write(),
            r.slot_append() == self.slot_append(),
            r.slot_truncate() == self.slot_truncate(),
            r.slot_create() == self.slot_create(),
            r.slot_create_new() == value.as_option_spec(),
    {
        let value: Option<bool> = value.as_option();
        open_fileBuilder {
            path: self.path,
            read: self.read,
            write: self.write,
            append: self.append,
            truncate: self.truncate,
            create: self.create,
            create_new: value,
        }
    }
}

impl open_fileBuilder<
    String,
    Option<bool>,
    Option<bool>,
    Option<bool>,
    Option<bool>,
    Option<bool>,
    Option<bool>,
> {
    /// The arguments that the slots hold. They exist only for a builder in
    /// which every slot is set.
    pub fn build(self) -> (r: Open_file)
        ensures
            r.path == self.slot_path(),
            r.read == self.slot_read(),
            r.write == self.slot_write(),
            r.append == self.slot_append(),
            r.truncate == self.slot_truncate(),
            r.create == self.slot_create(),
            r.create_new == self.slot_create_new(),
    {
        Open_file {
            path: self.path,
            read: self.read,
            write: self.write,
            append: self.append,
            truncate: self.truncate,
            create: self.create,
            create_new: self.create_new,
        }
    }
}

impl Deconstruct<
    (String, Option<bool>, Option<bool>, Option<bool>, Option<bool>, Option<bool>, Option<bool>),
> for open_fileBuilder<
    String,
    Option<bool>,
    Option<bool>,
    Option<bool>,
    Option<bool>,
    Option<bool>,
    Option<bool>,
> {
    open spec fn deconstruct_spec(self) -> (
        String,
        Option<bool>,
        Option<bool>,
        Option<bool>,
        Option<bool>,
        Option<bool>,
        Option<bool>,
    ) {
        (
            self.slot_path(),
            self.slot_read(),
            self.slot_write(),
            self.slot_append(),
            self.slot_truncate(),
            self.slot_create(),
            self.slot_create_new(),
        )
    }

    fn deconstruct(self) -> (r: (
        String,
        Option<bool>,
        Option<bool>,
        Option<bool>,
        Option<bool>,
        Option<bool>,
        Option<bool>,
    )) {
        (self.path, self.read, self.write, self.append, self.truncate, self.create, self.create_new)
    }
}

} // verus!
