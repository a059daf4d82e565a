//! Reading the description of a device from its tree of elements.
//!
//! Each part of a description is read from the element that describes it:
//! its fields come from the attributes of the element, and its parts from
//! the elements within. A part that lacks a required attribute or element,
//! or holds a number that is none, is refused, and with it the whole that it
//! is a part of.

use vstd::prelude::*;
use vstd::string::*;
use vstd::utf8::is_ascii_chars;
use crate::device::address_space::{is_word, Access, AddressSpace, Endianess, MemorySegment};
use crate::device::info::Device;
use crate::device::interface::Interface;
use crate::device::interrupt::Interrupt;
use crate::device::module::{
    BitField, Module, ModuleRegisterGroup, Register, Value, ValueGroup,
};
use crate::device::package::{Pin, Pinout};
use crate::device::peripherals;
use crate::device::peripherals::{Instance, Param, RegisterGroup, Signal};
use crate::device::property_group::{
    number, number_of, property_of, Property, PropertyGroup, PropertyValue,
};
use crate::device::xml::{attr, attribute, find_child, kid, kids, kids_upto, lemma_kids_grow, Element};
use crate::device::AvrDeviceFile;
use crate::error::Error;
use crate::text::{ascii_chars, decimal_value, parse_decimal};

verus! {

/// What is read from an element.
pub trait Described: Sized {
    /// Whether an element describes a value of this type.
    spec fn accepts(e: Element) -> bool;

    /// Whether this is the value that an element describes.
    spec fn describes(self, e: Element) -> bool;

    /// Reads the value that an element describes. Fails where the element
    /// describes none.
    fn from_element(x: &Element) -> (r: Result<Self, Error>)
        ensures
            match r {
                Ok(value) => Self::accepts(*x) && value.describes(*x),
                Err(e) => !Self::accepts(*x) && e == Error::InvalidDevice,
            },
    ;
}

/// Whether every element of a list describes a value.
pub open spec fn all_accepted<T: Described>(list: Seq<Element>) -> bool {
    forall|i: int| 0 <= i < list.len() ==> T::accepts(#[trigger] list[i])
}

/// Whether the values of a list are those that the elements of a list
/// describe, one by one.
pub open spec fn all_describe<T: Described>(items: Seq<T>, list: Seq<Element>) -> bool {
    items.len() == list.len() && forall|i: int|
        0 <= i < items.len() ==> (#[trigger] items[i]).describes(list[i])
}

/// The text of an optional text.
pub open spec fn text_of(text: Option<String>) -> Option<Seq<char>> {
    match text {
        Some(t) => Some(t@),
        None => None,
    }
}

/// Whether an element has the attribute `name` and the attribute is a
/// number.
pub open spec fn has_number(e: Element, name: Seq<char>) -> bool {
    attr(e, name) is Some && number_of(attr(e, name).unwrap()) is Some
}

/// The number that the attribute `name` of an element holds.
pub open spec fn number_at(e: Element, name: Seq<char>) -> u64 {
    number_of(attr(e, name).unwrap()).unwrap()
}

/// Whether the attribute `name` of an element, where it has one, is a
/// number.
pub open spec fn optional_number_fits(e: Element, name: Seq<char>) -> bool {
    attr(e, name) is Some ==> number_of(attr(e, name).unwrap()) is Some
}

/// The number that the attribute `name` of an element holds, where it has
/// one.
pub open spec fn optional_number_at(e: Element, name: Seq<char>) -> Option<u64> {
    match attr(e, name) {
        Some(text) => number_of(text),
        None => None,
    }
}

/// A number, or zero where there is none.
pub open spec fn number_or_zero(number: Option<u64>) -> u64 {
    match number {
        Some(value) => value,
        None => 0,
    }
}

/// The signed decimal number that a text holds.
pub open spec fn integer_of(text: Seq<char>) -> Option<i64> {
    if is_ascii_chars(text) {
        decimal_value(text)
    } else {
        None
    }
}

/// Whether an element has the attribute `name` and the attribute is a
/// signed decimal number.
pub open spec fn has_integer(e: Element, name: Seq<char>) -> bool {
    attr(e, name) is Some && integer_of(attr(e, name).unwrap()) is Some
}

/// The signed number that the attribute `name` of an element holds.
pub open spec fn integer_at(e: Element, name: Seq<char>) -> i64 {
    integer_of(attr(e, name).unwrap()).unwrap()
}

/// Whether the attribute `name` of an element, where it has one, is a
/// signed decimal number.
pub open spec fn optional_integer_fits(e: Element, name: Seq<char>) -> bool {
    attr(e, name) is Some ==> integer_of(attr(e, name).unwrap()) is Some
}

/// The signed number that the attribute `name` of an element holds, where
/// it has one.
pub open spec fn optional_integer_at(e: Element, name: Seq<char>) -> Option<i64> {
    match attr(e, name) {
        Some(text) => integer_of(text),
        None => None,
    }
}

/// Whether the attribute `name` of an element, where it has one, is one of
/// the two texts that stand for yes and no.
pub open spec fn flag_fits(e: Element, name: Seq<char>, yes: Seq<char>, no: Seq<char>) -> bool {
    attr(e, name) is Some ==> attr(e, name).unwrap() == yes || attr(e, name).unwrap() == no
}

/// Whether the attribute `name` of an element, where it has one, says yes.
pub open spec fn flag_at(e: Element, name: Seq<char>, yes: Seq<char>) -> Option<bool> {
    match attr(e, name) {
        Some(text) => Some(text == yes),
        None => None,
    }
}

/// The access that a text stands for.
pub open spec fn access_of(text: Seq<char>) -> Option<Access> {
    if text == "R"@ {
        Some(Access::R)
    } else if text == "RW"@ {
        Some(Access::RW)
    } else {
        None
    }
}

/// The access that the attribute `name` of an element gives, where it
/// gives one.
pub open spec fn access_at(e: Element, name: Seq<char>) -> Option<Access> {
    match attr(e, name) {
        Some(text) => access_of(text),
        None => None,
    }
}

/// The byte order that a text stands for.
pub open spec fn byte_order_of(text: Seq<char>) -> Option<Endianess> {
    if is_word(text, "big"@) {
        Some(Endianess::Big)
    } else if is_word(text, "little"@) {
        Some(Endianess::Little)
    } else {
        None
    }
}

/// Whether an element has the attribute `name` and the attribute is a byte
/// order.
pub open spec fn has_byte_order(e: Element, name: Seq<char>) -> bool {
    attr(e, name) is Some && byte_order_of(attr(e, name).unwrap()) is Some
}

/// The byte order that the attribute `name` of an element gives.
pub open spec fn byte_order_at(e: Element, name: Seq<char>) -> Endianess {
    byte_order_of(attr(e, name).unwrap()).unwrap()
}

/// Reads an attribute that must be there.
pub fn required_text(e: &Element, name: &str) -> (r: Result<String, Error>)
    ensures
        match r {
            Ok(text) => attr(*e, name@) == Some(text@),
            Err(err) => attr(*e, name@) is None && err == Error::InvalidDevice,
        },
{
    match attribute(e, name) {
        Some(text) => Ok(text.clone()),
        None => Err(Error::InvalidDevice),
    }
}

/// Reads an attribute that may be missing.
pub fn optional_text(e: &Element, name: &str) -> (r: Option<String>)
    ensures
        text_of(r) == attr(*e, name@),
{
    match attribute(e, name) {
        Some(text) => Some(text.clone()),
        None => None,
    }
}

/// Reads a number that must be there.
pub fn required_number(e: &Element, name: &str) -> (r: Result<u64, Error>)
    ensures
        match r {
            Ok(value) => has_number(*e, name@) && value == number_at(*e, name@),
            Err(err) => !has_number(*e, name@) && err == Error::InvalidDevice,
        },
{
    match attribute(e, name) {
        Some(text) => match number(text.as_str()) {
            Some(value) => Ok(value),
            None => Err(Error::InvalidDevice),
        },
        None => Err(Error::InvalidDevice),
    }
}

/// Reads a number that may be missing.
pub fn optional_number(e: &Element, name: &str) -> (r: Result<Option<u64>, Error>)
    ensures
        match r {
            Ok(value) => optional_number_fits(*e, name@) && value == optional_number_at(
                *e,
                name@,
            ),
            Err(err) => !optional_number_fits(*e, name@) && err == Error::InvalidDevice,
        },
{
    match attribute(e, name) {
        Some(text) => match number(text.as_str()) {
            Some(value) => Ok(Some(value)),
            None => Err(Error::InvalidDevice),
        },
        None => Ok(None),
    }
}

fn integer(text: &str) -> (r: Option<i64>)
    ensures
        r == integer_of(text@),
{
    match ascii_chars(text) {
        Some(chars) => {
            assert(chars@.skip(0) =~= chars@);
            parse_decimal(&chars, 0)
        },
        None => None,
    }
}

/// Reads a signed number that must be there.
pub fn required_integer(e: &Element, name: &str) -> (r: Result<i64, Error>)
    ensures
        match r {
            Ok(value) => has_integer(*e, name@) && value == integer_at(*e, name@),
            Err(err) => !has_integer(*e, name@) && err == Error::InvalidDevice,
        },
{
    match attribute(e, name) {
        Some(text) => match integer(text.as_str()) {
            Some(value) => Ok(value),
            None => Err(Error::InvalidDevice),
        },
        None => Err(Error::InvalidDevice),
    }
}

/// Reads a signed number that may be missing.
pub fn optional_integer(e: &Element, name: &str) -> (r: Result<Option<i64>, Error>)
    ensures
        match r {
            Ok(value) => optional_integer_fits(*e, name@) && value == optional_integer_at(
                *e,
                name@,
            ),
            Err(err) => !optional_integer_fits(*e, name@) && err == Error::InvalidDevice,
        },
{
    match attribute(e, name) {
        Some(text) => match integer(text.as_str()) {
            Some(value) => Ok(Some(value)),
            None => Err(Error::InvalidDevice),
        },
        None => Ok(None),
    }
}

/// Reads an attribute that says yes or no, and may be missing.
pub fn flag(e: &Element, name: &str, yes: &str, no: &str) -> (r: Result<Option<bool>, Error>)
    ensures
        match r {
            Ok(value) => flag_fits(*e, name@, yes@, no@) && value == flag_at(*e, name@, yes@),
            Err(err) => !flag_fits(*e, name@, yes@, no@) && err == Error::InvalidDevice,
        },
{
    match attribute(e, name) {
        Some(text) => if *text == String::from_str(yes) {
            Ok(Some(true))
        } else if *text == String::from_str(no) {
            Ok(Some(false))
        } else {
            Err(Error::InvalidDevice)
        },
        None => Ok(None),
    }
}

/// Reads the access of a memory segment.
pub fn access(e: &Element, name: &str) -> (r: Option<Access>)
    ensures
        r == access_at(*e, name@),
{
    match attribute(e, name) {
        Some(text) => Access::option_from(text.as_str()),
        None => None,
    }
}

/// Reads a byte order that must be there.
pub fn byte_order(e: &Element, name: &str) -> (r: Result<Endianess, Error>)
    ensures
        match r {
            Ok(value) => has_byte_order(*e, name@) && value == byte_order_at(*e, name@),
            Err(err) => !has_byte_order(*e, name@) && err == Error::InvalidDevice,
        },
{
    match attribute(e, name) {
        Some(text) => match Endianess::from_str(text.as_str()) {
            Ok(value) => Ok(value),
            Err(_) => Err(Error::InvalidDevice),
        },
        None => Err(Error::InvalidDevice),
    }
}

/// Finds an element that must be there.
pub fn required_child<'a>(e: &'a Element, name: &str) -> (r: Result<&'a Element, Error>)
    ensures
        match r {
            Ok(child) => kid(*e, name@) == Some(*child),
            Err(err) => kid(*e, name@) is None && err == Error::InvalidDevice,
        },
{
    match find_child(e, name) {
        Some(child) => Ok(child),
        None => Err(Error::InvalidDevice),
    }
}

/// Reads the values that the elements of the name `tag` within an element
/// describe, in their order. Fails where one of the elements describes
/// none.
pub fn list_from<T: Described>(parent: &Element, tag: &str) -> (r: Result<Vec<T>, Error>)
    ensures
        match r {
            Ok(items) => all_accepted::<T>(kids(*parent, tag@)) && all_describe::<T>(
                items@,
                kids(*parent, tag@),
            ),
            Err(e) => !all_accepted::<T>(kids(*parent, tag@)) && e == Error::InvalidDevice,
        },
{
    let target = String::from_str(tag);
    let mut items: Vec<T> = Vec::new();
    let mut k: usize = 0;
    while k < parent.children.len()
        invariant
            k <= parent.children@.len(),
            target@ == tag@,
            all_accepted::<T>(kids_upto(parent.children@, tag@, k as nat)),
            all_describe::<T>(items@, kids_upto(parent.children@, tag@, k as nat)),
        decreases parent.children@.len() - k,
    {
        if parent.children[k].name == target {
            let ghost before = kids_upto(parent.children@, tag@, k as nat);
            match T::from_element(&parent.children[k]) {
                Ok(item) => {
                    items.push(item);
                    assert(kids_upto(parent.children@, tag@, (k + 1) as nat) == before.push(
                        parent.children@[k as int],
                    ));
                },
                Err(e) => {
                    proof {
                        lemma_kids_grow(
                            parent.children@,
                            tag@,
                            (k + 1) as nat,
                            parent.children@.len(),
                        );
                        assert(kids_upto(parent.children@, tag@, (k + 1) as nat)[before.len() as int]
                            == parent.children@[k as int]);
                        assert(kids(*parent, tag@)[before.len() as int]
                            == parent.children@[k as int]);
                    }
                    return Err(e);
                },
            }
        }
        k = k + 1;
    }
    Ok(items)
}

impl Described for Pin {
    open spec fn accepts(e: Element) -> bool {
        &&& attr(e, "position"@) is Some
        &&& attr(e, "pad"@) is Some
    }

    open spec fn describes(self, e: Element) -> bool {
        &&& self.position@ == attr(e, "position"@).unwrap()
        &&& self.pad@ == attr(e, "pad"@).unwrap()
    }

    fn from_element(x: &Element) -> (r: Result<Self, Error>) {
        let position = required_text(x, "position")?;
        let pad = required_text(x, "pad")?;
        Ok(Pin { position, pad })
    }
}

impl Described for Pinout {
    open spec fn accepts(e: Element) -> bool {
        &&& attr(e, "name"@) is Some
        &&& all_accepted::<Pin>(kids(e, "pin"@))
    }

    open spec fn describes(self, e: Element) -> bool {
        &&& self.name@ == attr(e, "name"@).unwrap()
        &&& text_of(self.caption) == attr(e, "caption"@)
        &&& all_describe::<Pin>(self.pins@, kids(e, "pin"@))
    }

    fn from_element(x: &Element) -> (r: Result<Self, Error>) {
        let name = required_text(x, "name")?;
        let caption = optional_text(x, "caption");
        let pins = list_from::<Pin>(x, "pin")?;
        Ok(Pinout { name, caption, pins })
    }
}

impl Described for Interface {
    open spec fn accepts(e: Element) -> bool {
        &&& attr(e, "name"@) is Some
        &&& attr(e, "type"@) is Some
    }

    open spec fn describes(self, e: Element) -> bool {
        &&& self.name@ == attr(e, "name"@).unwrap()
        &&& self.data_type@ == attr(e, "type"@).unwrap()
    }

    fn from_element(x: &Element) -> (r: Result<Self, Error>) {
        let name = required_text(x, "name")?;
        let data_type = required_text(x, "type")?;
        Ok(Interface { name, data_type })
    }
}

impl Described for Interrupt {
    open spec fn accepts(e: Element) -> bool {
        &&& has_integer(e, "index"@)
        &&& attr(e, "name"@) is Some
    }

    open spec fn describes(self, e: Element) -> bool {
        &&& self.index == integer_at(e, "index"@)
        &&& self.name@ == attr(e, "name"@).unwrap()
        &&& text_of(self.caption) == attr(e, "caption"@)
    }

    fn from_element(x: &Element) -> (r: Result<Self, Error>) {
        let index = required_integer(x, "index")?;
        let name = required_text(x, "name")?;
        let caption = optional_text(x, "caption");
        Ok(Interrupt { index, name, caption })
    }
}

impl Described for Property {
    open spec fn accepts(e: Element) -> bool {
        &&& attr(e, "name"@) is Some
        &&& attr(e, "value"@) is Some
    }

    open spec fn describes(self, e: Element) -> bool {
        &&& self.name@ == attr(e, "name"@).unwrap()
        &&& self.value@ == property_of(attr(e, "value"@).unwrap())
    }

    fn from_element(x: &Element) -> (r: Result<Self, Error>) {
        let name = required_text(x, "name")?;
        let value = PropertyValue::from(required_text(x, "value")?.as_str());
        Ok(Property { name, value })
    }
}

impl Described for PropertyGroup {
    open spec fn accepts(e: Element) -> bool {
        &&& attr(e, "name"@) is Some
        &&& all_accepted::<Property>(kids(e, "property"@))
    }

    open spec fn describes(self, e: Element) -> bool {
        &&& self.name@ == attr(e, "name"@).unwrap()
        &&& all_describe::<Property>(self.properties@, kids(e, "property"@))
    }

    fn from_element(x: &Element) -> (r: Result<Self, Error>) {
        let name = required_text(x, "name")?;
        let properties = list_from::<Property>(x, "property")?;
        Ok(PropertyGroup { name, properties })
    }
}

impl Described for Param {
    open spec fn accepts(e: Element) -> bool {
        &&& attr(e, "name"@) is Some
        &&& attr(e, "value"@) is Some
    }

    open spec fn describes(self, e: Element) -> bool {
        &&& self.name@ == attr(e, "name"@).unwrap()
        &&& self.value@ == attr(e, "value"@).unwrap()
    }

    fn from_element(x: &Element) -> (r: Result<Self, Error>) {
        let name = required_text(x, "name")?;
        let value = required_text(x, "value")?;
        Ok(Param { name, value })
    }
}

impl Described for Signal {
    open spec fn accepts(e: Element) -> bool {
        &&& attr(e, "group"@) is Some
        &&& attr(e, "function"@) is Some
        &&& attr(e, "pad"@) is Some
        &&& optional_integer_fits(e, "index"@)
    }

    open spec fn describes(self, e: Element) -> bool {
        &&& self.group@ == attr(e, "group"@).unwrap()
        &&& self.function@ == attr(e, "function"@).unwrap()
        &&& self.pad@ == attr(e, "pad"@).unwrap()
        &&& self.index == optional_integer_at(e, "index"@)
    }

    fn from_element(x: &Element) -> (r: Result<Self, Error>) {
        let group = required_text(x, "group")?;
        let function = required_text(x, "function")?;
        let pad = required_text(x, "pad")?;
        let index = optional_integer(x, "index")?;
        Ok(Signal { group, function, pad, index })
    }
}

impl Described for RegisterGroup {
    open spec fn accepts(e: Element) -> bool {
        &&& attr(e, "name"@) is Some
        &&& attr(e, "name-in-module"@) is Some
        &&& has_number(e, "offset"@)
        &&& attr(e, "address-space"@) is Some
        &&& attr(e, "caption"@) is Some
    }

    open spec fn describes(self, e: Element) -> bool {
        &&& self.name@ == attr(e, "name"@).unwrap()
        &&& self.name_in_module@ == attr(e, "name-in-module"@).unwrap()
        &&& self.offset == number_at(e, "offset"@)
        &&& self.address_space@ == attr(e, "address-space"@).unwrap()
        &&& self.caption@ == attr(e, "caption"@).unwrap()
    }

    fn from_element(x: &Element) -> (r: Result<Self, Error>) {
        let name = required_text(x, "name")?;
        let name_in_module = required_text(x, "name-in-module")?;
        let offset = required_number(x, "offset")?;
        let address_space = required_text(x, "address-space")?;
        let caption = required_text(x, "caption")?;
        Ok(RegisterGroup { name, name_in_module, offset, address_space, caption })
    }
}

impl Described for Instance {
    open spec fn accepts(e: Element) -> bool {
        &&& attr(e, "name"@) is Some
        &&& attr(e, "caption"@) is Some
        &&& kid(e, "register-group"@) is Some
        &&& <RegisterGroup as Described>::accepts(kid(e, "register-group"@).unwrap())
        &&& kid(e, "signals"@) is Some ==> all_accepted::<Signal>(
            kids(kid(e, "signals"@).unwrap(), "signal"@),
        )
        &&& kid(e, "parameters"@) is Some ==> all_accepted::<Param>(
            kids(kid(e, "parameters"@).unwrap(), "parameter"@),
        )
    }

    open spec fn describes(self, e: Element) -> bool {
        &&& self.name@ == attr(e, "name"@).unwrap()
        &&& self.caption@ == attr(e, "caption"@).unwrap()
        &&& self.register_group.describes(kid(e, "register-group"@).unwrap())
        &&& match self.signals {
            Some(items) => kid(e, "signals"@) is Some && all_describe::<Signal>(
                items@,
                kids(kid(e, "signals"@).unwrap(), "signal"@),
            ),
            None => kid(e, "signals"@) is None,
        }
        &&& match self.parameters {
            Some(items) => kid(e, "parameters"@) is Some && all_describe::<Param>(
                items@,
                kids(kid(e, "parameters"@).unwrap(), "parameter"@),
            ),
            None => kid(e, "parameters"@) is None,
        }
    }

    fn from_element(x: &Element) -> (r: Result<Self, Error>) {
        let name = required_text(x, "name")?;
        let caption = required_text(x, "caption")?;
        let register_group = <RegisterGroup as Described>::from_element(required_child(x, "register-group")?)?;
        let signals = match find_child(x, "signals") {
            Some(within) => Some(list_from::<Signal>(within, "signal")?),
            None => None,
        };
        let parameters = match find_child(x, "parameters") {
            Some(within) => Some(list_from::<Param>(within, "parameter")?),
            None => None,
        };
        Ok(Instance { name, caption, register_group, signals, parameters })
    }
}

impl Described for peripherals::Module {
    open spec fn accepts(e: Element) -> bool {
        &&& attr(e, "name"@) is Some
        &&& all_accepted::<Instance>(kids(e, "instance"@))
    }

    open spec fn describes(self, e: Element) -> bool {
        &&& self.name@ == attr(e, "name"@).unwrap()
        &&& all_describe::<Instance>(self.instances@, kids(e, "instance"@))
    }

    fn from_element(x: &Element) -> (r: Result<Self, Error>) {
        let name = required_text(x, "name")?;
        let instances = list_from::<Instance>(x, "instance")?;
        Ok(peripherals::Module { name, instances })
    }
}

impl Described for MemorySegment {
    open spec fn accepts(e: Element) -> bool {
        &&& has_number(e, "start"@)
        &&& has_number(e, "size"@)
        &&& attr(e, "name"@) is Some
        &&& attr(e, "type"@) is Some
        &&& optional_number_fits(e, "pagesize"@)
        &&& flag_fits(e, "exec"@, "1"@, "0"@)
        &&& flag_fits(e, "external"@, "true"@, "false"@)
    }

    open spec fn describes(self, e: Element) -> bool {
        &&& self.start == number_at(e, "start"@)
        &&& self.size == number_at(e, "size"@)
        &&& self.name@ == attr(e, "name"@).unwrap()
        &&& self.data_type@ == attr(e, "type"@).unwrap()
        &&& self.access == access_at(e, "rw"@)
        &&& self.page_size == optional_number_at(e, "pagesize"@)
        &&& self.executable == flag_at(e, "exec"@, "1"@)
        &&& self.external == flag_at(e, "external"@, "true"@)
    }

    fn from_element(x: &Element) -> (r: Result<Self, Error>) {
        let start = required_number(x, "start")?;
        let size = required_number(x, "size")?;
        let name = required_text(x, "name")?;
        let data_type = required_text(x, "type")?;
        let access = access(x, "rw");
        let page_size = optional_number(x, "pagesize")?;
        let executable = flag(x, "exec", "1", "0")?;
        let external = flag(x, "external", "true", "false")?;
        Ok(MemorySegment { start, size, name, data_type, access, page_size, executable, external })
    }
}

impl Described for AddressSpace {
    open spec fn accepts(e: Element) -> bool {
        &&& all_accepted::<MemorySegment>(kids(e, "memory-segment"@))
        &&& has_byte_order(e, "endianness"@)
        &&& attr(e, "name"@) is Some
        &&& attr(e, "id"@) is Some
        &&& has_number(e, "start"@)
        &&& has_number(e, "size"@)
    }

    open spec fn describes(self, e: Element) -> bool {
        &&& all_describe::<MemorySegment>(self.memory_segments@, kids(e, "memory-segment"@))
        &&& self.endianess == byte_order_at(e, "endianness"@)
        &&& self.name@ == attr(e, "name"@).unwrap()
        &&& self.id@ == attr(e, "id"@).unwrap()
        &&& self.start == number_at(e, "start"@)
        &&& self.size == number_at(e, "size"@)
    }

    fn from_element(x: &Element) -> (r: Result<Self, Error>) {
        let memory_segments = list_from::<MemorySegment>(x, "memory-segment")?;
        let endianess = byte_order(x, "endianness")?;
        let name = required_text(x, "name")?;
        let id = required_text(x, "id")?;
        let start = required_number(x, "start")?;
        let size = required_number(x, "size")?;
        Ok(AddressSpace { memory_segments, endianess, name, id, start, size })
    }
}

impl Described for Value {
    open spec fn accepts(e: Element) -> bool {
        &&& attr(e, "caption"@) is Some
        &&& attr(e, "name"@) is Some
        &&& attr(e, "value"@) is Some
    }

    open spec fn describes(self, e: Element) -> bool {
        &&& self.caption@ == attr(e, "caption"@).unwrap()
        &&& self.name@ == attr(e, "name"@).unwrap()
        &&& self.value@ == property_of(attr(e, "value"@).unwrap())
    }

    fn from_element(x: &Element) -> (r: Result<Self, Error>) {
        let caption = required_text(x, "caption")?;
        let name = required_text(x, "name")?;
        let value = PropertyValue::from(required_text(x, "value")?.as_str());
        Ok(Value { caption, name, value })
    }
}

impl Described for ValueGroup {
    open spec fn accepts(e: Element) -> bool {
        &&& attr(e, "name"@) is Some
        &&& all_accepted::<Value>(kids(e, "value"@))
    }

    open spec fn describes(self, e: Element) -> bool {
        &&& self.name@ == attr(e, "name"@).unwrap()
        &&& all_describe::<Value>(self.values@, kids(e, "value"@))
    }

    fn from_element(x: &Element) -> (r: Result<Self, Error>) {
        let name = required_text(x, "name")?;
        let values = list_from::<Value>(x, "value")?;
        Ok(ValueGroup { name, values })
    }
}

impl Described for BitField {
    open spec fn accepts(e: Element) -> bool {
        &&& has_number(e, "mask"@)
        &&& attr(e, "name"@) is Some
    }

    open spec fn describes(self, e: Element) -> bool {
        &&& text_of(self.caption) == attr(e, "caption"@)
        &&& self.mask == number_at(e, "mask"@)
        &&& self.name@ == attr(e, "name"@).unwrap()
        &&& text_of(self.values) == attr(e, "values"@)
    }

    fn from_element(x: &Element) -> (r: Result<Self, Error>) {
        let caption = optional_text(x, "caption");
        let mask = required_number(x, "mask")?;
        let name = required_text(x, "name")?;
        let values = optional_text(x, "values");
        Ok(BitField { caption, mask, name, values })
    }
}

impl Described for Register {
    open spec fn accepts(e: Element) -> bool {
        &&& attr(e, "name"@) is Some
        &&& has_number(e, "offset"@)
        &&& has_number(e, "size"@)
        &&& optional_number_fits(e, "initval"@)
        &&& all_accepted::<BitField>(kids(e, "bitfield"@))
    }

    open spec fn describes(self, e: Element) -> bool {
        &&& text_of(self.caption) == attr(e, "caption"@)
        &&& self.name@ == attr(e, "name"@).unwrap()
        &&& self.offset == number_at(e, "offset"@)
        &&& self.size == number_at(e, "size"@)
        &&& self.initval == number_or_zero(optional_number_at(e, "initval"@))
        &&& self.bitfields is Some && all_describe::<BitField>(
            self.bitfields.unwrap()@,
            kids(e, "bitfield"@),
        )
    }

    fn from_element(x: &Element) -> (r: Result<Self, Error>) {
        let caption = optional_text(x, "caption");
        let name = required_text(x, "name")?;
        let offset = required_number(x, "offset")?;
        let size = required_number(x, "size")?;
        let initval = match optional_number(x, "initval")? {
            Some(value) => value,
            None => 0,
        };
        let bitfields = Some(list_from::<BitField>(x, "bitfield")?);
        Ok(Register { caption, name, offset, size, initval, bitfields })
    }
}

impl Described for ModuleRegisterGroup {
    open spec fn accepts(e: Element) -> bool {
        &&& attr(e, "name"@) is Some
        &&& all_accepted::<Register>(kids(e, "register"@))
    }

    open spec fn describes(self, e: Element) -> bool {
        &&& text_of(self.caption) == attr(e, "caption"@)
        &&& self.name@ == attr(e, "name"@).unwrap()
        &&& all_describe::<Register>(self.register@, kids(e, "register"@))
    }

    fn from_element(x: &Element) -> (r: Result<Self, Error>) {
        let caption = optional_text(x, "caption");
        let name = required_text(x, "name")?;
        let register = list_from::<Register>(x, "register")?;
        Ok(ModuleRegisterGroup { caption, name, register })
    }
}

impl Described for Module {
    open spec fn accepts(e: Element) -> bool {
        &&& attr(e, "name"@) is Some
        &&& all_accepted::<ModuleRegisterGroup>(kids(e, "register-group"@))
        &&& all_accepted::<ValueGroup>(kids(e, "value-group"@))
    }

    open spec fn describes(self, e: Element) -> bool {
        &&& text_of(self.caption) == attr(e, "caption"@)
        &&& self.name@ == attr(e, "name"@).unwrap()
        &&& all_describe::<ModuleRegisterGroup>(self.register_group@, kids(e, "register-group"@))
        &&& all_describe::<ValueGroup>(self.value_grop@, kids(e, "value-group"@))
    }

    fn from_element(x: &Element) -> (r: Result<Self, Error>) {
        let caption = optional_text(x, "caption");
        let name = required_text(x, "name")?;
        let register_group = list_from::<ModuleRegisterGroup>(x, "register-group")?;
        let value_grop = list_from::<ValueGroup>(x, "value-group")?;
        Ok(Module { caption, name, register_group, value_grop })
    }
}

impl Described for Device {
    open spec fn accepts(e: Element) -> bool {
        &&& attr(e, "name"@) is Some
        &&& attr(e, "architecture"@) is Some
        &&& attr(e, "family"@) is Some
        &&& kid(e, "address-spaces"@) is Some
        &&& all_accepted::<AddressSpace>(kids(kid(e, "address-spaces"@).unwrap(), "address-space"@))
        &&& kid(e, "peripherals"@) is Some
        &&& all_accepted::<peripherals::Module>(kids(kid(e, "peripherals"@).unwrap(), "module"@))
        &&& kid(e, "interrupts"@) is Some
        &&& all_accepted::<Interrupt>(kids(kid(e, "interrupts"@).unwrap(), "interrupt"@))
        &&& kid(e, "interfaces"@) is Some
        &&& all_accepted::<Interface>(kids(kid(e, "interfaces"@).unwrap(), "interface"@))
        &&& kid(e, "property-groups"@) is Some
        &&& all_accepted::<PropertyGroup>(kids(kid(e, "property-groups"@).unwrap(), "property-group"@))
    }

    open spec fn describes(self, e: Element) -> bool {
        &&& self.name@ == attr(e, "name"@).unwrap()
        &&& self.architecture@ == attr(e, "architecture"@).unwrap()
        &&& self.family@ == attr(e, "family"@).unwrap()
        &&& all_describe::<AddressSpace>(
            self.address_spaces@,
            kids(kid(e, "address-spaces"@).unwrap(), "address-space"@),
        )
        &&& all_describe::<peripherals::Module>(
            self.peripherals@,
            kids(kid(e, "peripherals"@).unwrap(), "module"@),
        )
        &&& all_describe::<Interrupt>(
            self.interrupts@,
            kids(kid(e, "interrupts"@).unwrap(), "interrupt"@),
        )
        &&& all_describe::<Interface>(
            self.interfaces@,
            kids(kid(e, "interfaces"@).unwrap(), "interface"@),
        )
        &&& all_describe::<PropertyGroup>(
            self.propery_groups@,
            kids(kid(e, "property-groups"@).unwrap(), "property-group"@),
        )
    }

    fn from_element(x: &Element) -> (r: Result<Self, Error>) {
        let name = required_text(x, "name")?;
        let architecture = required_text(x, "architecture")?;
        let family = required_text(x, "family")?;
        let address_spaces = list_from::<AddressSpace>(required_child(x, "address-spaces")?, "address-space")?;
        let peripherals = list_from::<peripherals::Module>(required_child(x, "peripherals")?, "module")?;
        let interrupts = list_from::<Interrupt>(required_child(x, "interrupts")?, "interrupt")?;
        let interfaces = list_from::<Interface>(required_child(x, "interfaces")?, "interface")?;
        let propery_groups = list_from::<PropertyGroup>(required_child(x, "property-groups")?, "property-group")?;
        Ok(Device { name, architecture, family, address_spaces, peripherals, interrupts, interfaces, propery_groups })
    }
}

impl Described for AvrDeviceFile {
    open spec fn accepts(e: Element) -> bool {
        &&& kid(e, "devices"@) is Some
        &&& kid(kid(e, "devices"@).unwrap(), "device"@) is Some
        &&& <Device as Described>::accepts(kid(kid(e, "devices"@).unwrap(), "device"@).unwrap())
        &&& kid(e, "modules"@) is Some
        &&& all_accepted::<Module>(kids(kid(e, "modules"@).unwrap(), "module"@))
        &&& kid(e, "pinouts"@) is Some ==> all_accepted::<Pinout>(
            kids(kid(e, "pinouts"@).unwrap(), "pinout"@),
        )
    }

    open spec fn describes(self, e: Element) -> bool {
        &&& self.devices.describes(kid(kid(e, "devices"@).unwrap(), "device"@).unwrap())
        &&& all_describe::<Module>(
            self.modules@,
            kids(kid(e, "modules"@).unwrap(), "module"@),
        )
        &&& match self.pinouts {
            Some(items) => kid(e, "pinouts"@) is Some && all_describe::<Pinout>(
                items@,
                kids(kid(e, "pinouts"@).unwrap(), "pinout"@),
            ),
            None => kid(e, "pinouts"@) is None,
        }
    }

    fn from_element(x: &Element) -> (r: Result<Self, Error>) {
        let devices = <Device as Described>::from_element(
            required_child(required_child(x, "devices")?, "device")?,
        )?;
        let modules = list_from::<Module>(required_child(x, "modules")?, "module")?;
        let pinouts = match find_child(x, "pinouts") {
            Some(within) => Some(list_from::<Pinout>(within, "pinout")?),
            None => None,
        };
        Ok(AvrDeviceFile { devices, modules, pinouts })
    }
}

} // verus!
