//! The properties of the TCP client source.

use std::sync::Arc;

use vstd::prelude::*;

use crate::caps::share_optional;
use crate::text::{copy_text, opt_text};

verus! {

pub const DEFAULT_ADDRESS: &'static str = "127.0.0.1";

pub const DEFAULT_PORT: u32 = 5000;

pub const DEFAULT_CHUNK_SIZE: u32 = 4096;

pub const DEFAULT_CONTEXT: &'static str = "";

pub const DEFAULT_CONTEXT_WAIT: u32 = 0;

/// The settings of a source, over its kind of caps.
#[derive(Debug)]
pub struct Settings<C> {
    /// The address to receive from.
    pub address: Option<String>,
    /// The port to receive from.
    pub port: u32,
    /// The caps to announce.
    pub caps: Option<Arc<C>>,
    /// How many bytes a buffer holds at most.
    pub chunk_size: u32,
    /// The context whose thread the source shares.
    pub context: String,
    /// How many milliseconds lie between two runs of the context, at least.
    pub context_wait: u32,
}

/// `Settings` by their characters, numbers and caps.
#[verifier::ext_equal]
pub struct SettingsView<C> {
    pub address: Option<Seq<char>>,
    pub port: u32,
    pub caps: Option<Arc<C>>,
    pub chunk_size: u32,
    pub context: Seq<char>,
    pub context_wait: u32,
}

impl<C> View for Settings<C> {
    type V = SettingsView<C>;

    open spec fn view(&self) -> SettingsView<C> {
        SettingsView {
            address: opt_text(self.address),
            port: self.port,
            caps: self.caps,
            chunk_size: self.chunk_size,
            context: self.context@,
            context_wait: self.context_wait,
        }
    }
}

/// The settings before any property is set.
pub open spec fn default_settings<C>() -> SettingsView<C> {
    SettingsView {
        address: Some(DEFAULT_ADDRESS@),
        port: DEFAULT_PORT,
        caps: None,
        chunk_size: DEFAULT_CHUNK_SIZE,
        context: DEFAULT_CONTEXT@,
        context_wait: DEFAULT_CONTEXT_WAIT,
    }
}

impl<C> Default for Settings<C> {
    fn default() -> (settings: Self)
        ensures
            settings@ == default_settings::<C>(),
    {
        Settings {
            address: Some(DEFAULT_ADDRESS.to_owned()),
            port: DEFAULT_PORT,
            caps: None,
            chunk_size: DEFAULT_CHUNK_SIZE,
            context: DEFAULT_CONTEXT.to_owned(),
            context_wait: DEFAULT_CONTEXT_WAIT,
        }
    }
}

impl<C> Clone for Settings<C> {
    fn clone(&self) -> (copy: Self)
        ensures
            copy@ == self@,
    {
        Settings {
            address: copy_text(&self.address),
            port: self.port,
            caps: share_optional(&self.caps),
            chunk_size: self.chunk_size,
            context: self.context.clone(),
            context_wait: self.context_wait,
        }
    }
}

/// The properties, in the order in which they are installed.
#[derive(Debug, Clone, Copy, PartialEq, Eq, Structural)]
pub enum Property {
    Address,
    Port,
    Caps,
    ChunkSize,
    Context,
    ContextWait,
}

/// How many properties there are.
pub const PROPERTY_COUNT: usize = 6;

/// The property that is installed at `index`.
pub open spec fn property_at(index: int) -> Property {
    if index == 0 {
        Property::Address
    } else if index == 1 {
        Property::Port
    } else if index == 2 {
        Property::Caps
    } else if index == 3 {
        Property::ChunkSize
    } else if index == 4 {
        Property::Context
    } else {
        Property::ContextWait
    }
}

/// What values a property takes, and which one it has at first.
#[derive(Debug)]
pub enum PropertyKind {
    /// Text, with its initial value.
    Text(Option<&'static str>),
    Number { min: u32, max: u32, default: u32 },
    Caps,
}

/// How a property presents itself.
#[derive(Debug)]
pub struct PropertyInfo {
    pub name: &'static str,
    pub nick: &'static str,
    pub blurb: &'static str,
    pub kind: PropertyKind,
}

/// The value of a property. Text and caps can be absent.
#[derive(Debug)]
pub enum PropertyValue<C> {
    Text(Option<String>),
    Number(u32),
    Caps(Option<Arc<C>>),
}

/// A `PropertyValue` by its characters and caps.
pub enum PropertyValueView<C> {
    Text(Option<Seq<char>>),
    Number(u32),
    Caps(Option<Arc<C>>),
}

impl<C> View for PropertyValue<C> {
    type V = PropertyValueView<C>;

    open spec fn view(&self) -> PropertyValueView<C> {
        match self {
            PropertyValue::Text(text) => PropertyValueView::Text(opt_text(*text)),
            PropertyValue::Number(number) => PropertyValueView::Number(*number),
            PropertyValue::Caps(caps) => PropertyValueView::Caps(*caps),
        }
    }
}

impl<C> PropertyValueView<C> {
    /// The value is of the kind that `property` takes.
    pub open spec fn suits(self, property: Property) -> bool {
        match property {
            Property::Address | Property::Context => self is Text,
            Property::Port | Property::ChunkSize | Property::ContextWait => self is Number,
            Property::Caps => self is Caps,
        }
    }

    /// The value that `property` has once it is set to this one: a context that is
    /// absent is the empty one.
    pub open spec fn stored_as(self, property: Property) -> Self {
        if property == Property::Context && self == PropertyValueView::<C>::Text(None) {
            PropertyValueView::Text(Some(""@))
        } else {
            self
        }
    }
}

impl<C> SettingsView<C> {
    /// The settings with `property` set to `value`.
    pub open spec fn with(self, property: Property, value: PropertyValueView<C>) -> Self {
        match (property, value.stored_as(property)) {
            (Property::Address, PropertyValueView::Text(text)) => SettingsView {
                address: text,
                ..self
            },
            (Property::Port, PropertyValueView::Number(number)) => SettingsView {
                port: number,
                ..self
            },
            (Property::Caps, PropertyValueView::Caps(caps)) => SettingsView { caps, ..self },
            (Property::ChunkSize, PropertyValueView::Number(number)) => SettingsView {
                chunk_size: number,
                ..self
            },
            (Property::Context, PropertyValueView::Text(Some(text))) => SettingsView {
                context: text,
                ..self
            },
            (Property::ContextWait, PropertyValueView::Number(number)) => SettingsView {
                context_wait: number,
                ..self
            },
            _ => self,
        }
    }

    /// The value of `property`.
    pub open spec fn value_of(self, property: Property) -> PropertyValueView<C> {
        match property {
            Property::Address => PropertyValueView::Text(self.address),
            Property::Port => PropertyValueView::Number(self.port),
            Property::Caps => PropertyValueView::Caps(self.caps),
            Property::ChunkSize => PropertyValueView::Number(self.chunk_size),
            Property::Context => PropertyValueView::Text(Some(self.context)),
            Property::ContextWait => PropertyValueView::Number(self.context_wait),
        }
    }
}

impl Property {
    /// Returns the property that is installed at `index`.
    pub fn at(index: usize) -> (property: Option<Property>)
        ensures
            property == if index < PROPERTY_COUNT {
                Some(property_at(index as int))
            } else {
                None
            },
    {
        match index {
            0 => Some(Property::Address),
            1 => Some(Property::Port),
            2 => Some(Property::Caps),
            3 => Some(Property::ChunkSize),
            4 => Some(Property::Context),
            5 => Some(Property::ContextWait),
            _ => None,
        }
    }

    /// The name under which the property is set and read.
    pub open spec fn name(self) -> Seq<char> {
        match self {
            Property::Address => "address"@,
            Property::Port => "port"@,
            Property::Caps => "caps"@,
            Property::ChunkSize => "chunk-size"@,
            Property::Context => "context"@,
            Property::ContextWait => "context-wait"@,
        }
    }

    /// The short title of the property.
    pub open spec fn nick(self) -> Seq<char> {
        match self {
            Property::Address => "Address"@,
            Property::Port => "Port"@,
            Property::Caps => "Caps"@,
            Property::ChunkSize => "Chunk Size"@,
            Property::Context => "Context"@,
            Property::ContextWait => "Context Wait"@,
        }
    }

    /// What the property is for.
    pub open spec fn blurb(self) -> Seq<char> {
        match self {
            Property::Address => "Address to receive packets from"@,
            Property::Port => "Port to receive packets from"@,
            Property::Caps => "Caps to use"@,
            Property::ChunkSize => "Chunk Size"@,
            Property::Context => "Context name to share threads with"@,
            Property::ContextWait => "Throttle poll loop to run at most once every this many ms"@,
        }
    }

    /// `kind` describes the values that the property takes.
    pub open spec fn has_kind(self, kind: PropertyKind) -> bool {
        match (self, kind) {
            (Property::Address, PropertyKind::Text(Some(text))) => text@
                == DEFAULT_ADDRESS@,
            (Property::Port, PropertyKind::Number { min, max, default }) => min == 0 && max
                == u16::MAX && default == DEFAULT_PORT,
            (Property::Caps, PropertyKind::Caps) => true,
            (Property::ChunkSize, PropertyKind::Number { min, max, default }) => min == 0 && max
                == u16::MAX && default == DEFAULT_CHUNK_SIZE,
            (Property::Context, PropertyKind::Text(Some(text))) => text@
                == DEFAULT_CONTEXT@,
            (Property::ContextWait, PropertyKind::Number { min, max, default }) => min == 0 && max
                == 1000 && default == DEFAULT_CONTEXT_WAIT,
            _ => false,
        }
    }

    /// Returns how the property presents itself.
    pub fn describe(self) -> (info: PropertyInfo)
        ensures
            info.name@ == self.name(),
            info.nick@ == self.nick(),
            info.blurb@ == self.blurb(),
            self.has_kind(info.kind),
    {
        match self {
            Property::Address => PropertyInfo {
                name: "address",
                nick: "Address",
                blurb: "Address to receive packets from",
                kind: PropertyKind::Text(Some(DEFAULT_ADDRESS)),
            },
            Property::Port => PropertyInfo {
                name: "port",
                nick: "Port",
                blurb: "Port to receive packets from",
                kind: PropertyKind::Number {
                    min: 0,
                    max: u16::MAX as u32,
                    default: DEFAULT_PORT,
                },
            },
            Property::Caps => PropertyInfo {
                name: "caps",
                nick: "Caps",
                blurb: "Caps to use",
                kind: PropertyKind::Caps,
            },
            Property::ChunkSize => PropertyInfo {
                name: "chunk-size",
                nick: "Chunk Size",
                blurb: "Chunk Size",
                kind: PropertyKind::Number {
                    min: 0,
                    max: u16::MAX as u32,
                    default: DEFAULT_CHUNK_SIZE,
                },
            },
            Property::Context => PropertyInfo {
                name: "context",
                nick: "Context",
                blurb: "Context name to share threads with",
                kind: PropertyKind::Text(Some(DEFAULT_CONTEXT)),
            },
            Property::ContextWait => PropertyInfo {
                name: "context-wait",
                nick: "Context Wait",
                blurb: "Throttle poll loop to run at most once every this many ms",
                kind: PropertyKind::Number { min: 0, max: 1000, default: DEFAULT_CONTEXT_WAIT },
            },
        }
    }
}

impl<C> Settings<C> {
    /// Sets the property that is installed at `id`. The value is of the kind that
    /// the property takes.
    pub fn set_property(&mut self, id: usize, value: PropertyValue<C>)
        requires
            id < PROPERTY_COUNT,
            value@.suits(property_at(id as int)),
        ensures
            final(self)@ == old(self)@.with(property_at(id as int), value@),
    {
        match (id, value) {
            (0, PropertyValue::Text(text)) => {
                self.address = text;
            },
            (1, PropertyValue::Number(number)) => {
                self.port = number;
            },
            (2, PropertyValue::Caps(caps)) => {
                self.caps = caps;
            },
            (3, PropertyValue::Number(number)) => {
                self.chunk_size = number;
            },
            (4, PropertyValue::Text(Some(text))) => {
                self.context = text;
            },
            (4, PropertyValue::Text(None)) => {
                self.context = "".to_owned();
            },
            (5, PropertyValue::Number(number)) => {
                self.context_wait = number;
            },
            _ => {},
        }
    }

    /// Returns the value of the property that is installed at `id`.
    pub fn get_property(&self, id: usize) -> (value: PropertyValue<C>)
        requires
            id < PROPERTY_COUNT,
        ensures
            value@ == self@.value_of(property_at(id as int)),
    {
        match id {
            0 => PropertyValue::Text(copy_text(&self.address)),
            1 => PropertyValue::Number(self.port),
            2 => PropertyValue::Caps(share_optional(&self.caps)),
            3 => PropertyValue::Number(self.chunk_size),
            4 => PropertyValue::Text(Some(self.context.clone())),
            _ => PropertyValue::Number(self.context_wait),
        }
    }
}

/// Reading a property that was set gives back what was set; a context that was set
/// to nothing reads as the empty one.
pub proof fn law_get_after_set<C>(
    v: SettingsView<C>,
    property: Property,
    value: PropertyValueView<C>,
)
    requires
        value.suits(property),
    ensures
        v.with(property, value).value_of(property) == value.stored_as(property),
{
}

/// Setting a property leaves all others.
pub proof fn law_set_leaves_others<C>(
    v: SettingsView<C>,
    property: Property,
    value: PropertyValueView<C>,
    other: Property,
)
    requires
        other != property,
    ensures
        v.with(property, value).value_of(other) == v.value_of(other),
{
}

/// Setting a property to the value that it has changes nothing.
pub proof fn law_set_to_itself<C>(v: SettingsView<C>, property: Property)
    ensures
        v.with(property, v.value_of(property)) == v,
{
}

/// The settings before any property is set are those that the properties announce,
/// and the numbers among them lie within the announced bounds.
pub proof fn law_defaults_are_announced<C>(property: Property, kind: PropertyKind)
    requires
        property.has_kind(kind),
    ensures
        match (kind, default_settings::<C>().value_of(property)) {
            (PropertyKind::Text(Some(text)), PropertyValueView::Text(Some(value))) => {
                value == text@
            },
            (PropertyKind::Number { min, max, default }, PropertyValueView::Number(value)) => {
                value == default && min <= value <= max
            },
            (PropertyKind::Caps, PropertyValueView::Caps(caps)) => caps is None,
            _ => false,
        },
{
}

/// The settings before any property is set: port 5000 of this machine, no caps, chunks of
/// 4096 bytes, and the nameless context without a pause.
pub proof fn law_default_settings<C>(settings: Settings<C>)
    requires
        call_ensures(Settings::<C>::default, (), settings),
    ensures
        settings.address is Some,
        settings.address->0@ == "127.0.0.1"@,
        settings.port == 5000,
        settings.caps is None,
        settings.chunk_size == 4096,
        settings.context@ == ""@,
        settings.context_wait == 0,
{
}

/// A copy of the settings holds what they hold.
pub proof fn law_copy_of_settings<C>(settings: &Settings<C>, copy: Settings<C>)
    requires
        call_ensures(Settings::<C>::clone, (settings,), copy),
    ensures
        copy.address is Some <==> settings.address is Some,
        copy.address is Some ==> copy.address->0@ == settings.address->0@,
        copy.port == settings.port,
        copy.caps == settings.caps,
        copy.chunk_size == settings.chunk_size,
        copy.context@ == settings.context@,
        copy.context_wait == settings.context_wait,
{
}

/// The properties are installed in this order: address, port, caps, size of a chunk,
/// context, wait of the context. There are no others.
pub proof fn law_order_of_properties(index: usize, property: Option<Property>)
    requires
        call_ensures(Property::at, (index,), property),
    ensures
        property is None <==> index >= 6,
        property == Some(Property::Address) <==> index == 0,
        property == Some(Property::Port) <==> index == 1,
        property == Some(Property::Caps) <==> index == 2,
        property == Some(Property::ChunkSize) <==> index == 3,
        property == Some(Property::Context) <==> index == 4,
        property == Some(Property::ContextWait) <==> index == 5,
{
}

/// The names, titles and purposes under which the properties present themselves.
pub proof fn law_names_of_properties(property: Property, info: PropertyInfo)
    requires
        call_ensures(Property::describe, (property,), info),
    ensures
        property is Address ==> {
            &&& info.name@ == "address"@
            &&& info.nick@ == "Address"@
            &&& info.blurb@ == "Address to receive packets from"@
        },
        property is Port ==> {
            &&& info.name@ == "port"@
            &&& info.nick@ == "Port"@
            &&& info.blurb@ == "Port to receive packets from"@
        },
        property is Caps ==> {
            &&& info.name@ == "caps"@
            &&& info.nick@ == "Caps"@
            &&& info.blurb@ == "Caps to use"@
        },
        property is ChunkSize ==> {
            &&& info.name@ == "chunk-size"@
            &&& info.nick@ == "Chunk Size"@
            &&& info.blurb@ == "Chunk Size"@
        },
        property is Context ==> {
            &&& info.name@ == "context"@
            &&& info.nick@ == "Context"@
            &&& info.blurb@ == "Context name to share threads with"@
        },
        property is ContextWait ==> {
            &&& info.name@ == "context-wait"@
            &&& info.nick@ == "Context Wait"@
            &&& info.blurb@ == "Throttle poll loop to run at most once every this many ms"@
        },
{
}

/// The address and the context are texts, the caps are caps, and the others are numbers.
/// A port and a size of a chunk have 16 bits, and a wait is of at most a second. At first
/// each has the value that a new source has.
pub proof fn law_kinds_of_properties(property: Property, info: PropertyInfo)
    requires
        call_ensures(Property::describe, (property,), info),
    ensures
        info.kind is Text <==> property is Address || property is Context,
        info.kind is Caps <==> property is Caps,
        info.kind matches PropertyKind::Text(initial) ==> initial is Some && initial->0@
            == if property is Address {
            "127.0.0.1"@
        } else {
            ""@
        },
        info.kind matches PropertyKind::Number { min, max, default } ==> {
            &&& min == 0
            &&& max == if property is ContextWait {
                1000u32
            } else {
                65535
            }
            &&& default == if property is Port {
                5000u32
            } else if property is ChunkSize {
                4096
            } else {
                0
            }
        },
{
}

/// Reading a property gives what the settings hold under it, and nothing else.
pub proof fn law_reading_a_property<C>(
    settings: &Settings<C>,
    id: usize,
    value: PropertyValue<C>,
)
    requires
        id < 6,
        call_ensures(Settings::<C>::get_property, (settings, id), value),
    ensures
        value is Text <==> id == 0 || id == 4,
        value is Caps <==> id == 2,
        value matches PropertyValue::Text(text) ==> {
            &&& id == 0 ==> (text is Some <==> settings.address is Some)
            &&& id == 0 && text is Some ==> text->0@ == settings.address->0@
            &&& id == 4 ==> text is Some && text->0@ == settings.context@
        },
        value matches PropertyValue::Caps(caps) ==> caps == settings.caps,
        value matches PropertyValue::Number(number) ==> number == if id == 1 {
            settings.port
        } else if id == 3 {
            settings.chunk_size
        } else {
            settings.context_wait
        },
{
}

/// Setting a property changes what the settings hold under it to the value that was
/// given, and leaves the rest. An absent text empties the context.
pub proof fn law_setting_a_property<C>(
    settings: &mut Settings<C>,
    id: usize,
    value: PropertyValue<C>,
)
    requires
        id < 6,
        value is Text <==> id == 0 || id == 4,
        value is Caps <==> id == 2,
        call_ensures(Settings::<C>::set_property, (settings, id, value), ()),
    ensures
        id != 0 ==> {
            &&& final(settings).address is Some <==> old(settings).address is Some
            &&& final(settings).address is Some ==> final(settings).address->0@ == old(
                settings,
            ).address->0@
        },
        id != 1 ==> final(settings).port == old(settings).port,
        id != 2 ==> final(settings).caps == old(settings).caps,
        id != 3 ==> final(settings).chunk_size == old(settings).chunk_size,
        id != 4 ==> final(settings).context@ == old(settings).context@,
        id != 5 ==> final(settings).context_wait == old(settings).context_wait,
        value matches PropertyValue::Text(text) ==> {
            &&& id == 0 ==> (final(settings).address is Some <==> text is Some)
            &&& id == 0 && text is Some ==> final(settings).address->0@ == text->0@
            &&& id == 4 && text is Some ==> final(settings).context@ == text->0@
            &&& id == 4 && text is None ==> final(settings).context@.len() == 0
        },
        value matches PropertyValue::Caps(caps) ==> final(settings).caps == caps,
        value matches PropertyValue::Number(number) ==> {
            &&& id == 1 ==> final(settings).port == number
            &&& id == 3 ==> final(settings).chunk_size == number
            &&& id == 5 ==> final(settings).context_wait == number
        },
{
    reveal_strlit("");
}

} // verus!
