//! Options: typed, validated settings of a codec.
//!
//! A codec declares a schema, a list of `SquashOptionInfo`. A `SquashOptions`
//! holds one value for each entry of the schema of the codec it was made for.
//! Every value is checked against its entry when it is assigned, so whoever
//! reads a `SquashOptions` reads values that the schema permits.

use vstd::prelude::*;
use crate::status::{
    squash_error, SquashStatus, SQUASH_BAD_PARAM, SQUASH_BAD_VALUE, SQUASH_OK, SQUASH_RANGE,
};
use crate::text::{
    squash_text_bool, squash_text_equal, squash_text_integer, squash_text_to_bool,
    squash_text_to_int, squash_text_to_size, SquashNumber,
};

verus! {

/// The kind of value that an option takes, as a number.
pub type SquashOptionType = i32;

/// No option: the kind of an entry that describes nothing.
pub const SQUASH_OPTION_TYPE_NONE: SquashOptionType = 0;

/// A boolean.
pub const SQUASH_OPTION_TYPE_BOOL: SquashOptionType = 1;

/// A string.
pub const SQUASH_OPTION_TYPE_STRING: SquashOptionType = 2;

/// A signed integer.
pub const SQUASH_OPTION_TYPE_INT: SquashOptionType = 3;

/// An unsigned size.
pub const SQUASH_OPTION_TYPE_SIZE: SquashOptionType = 4;

/// One of a list of strings, each of which stands for an integer.
pub const SQUASH_OPTION_TYPE_ENUM_STRING: SquashOptionType = 0x12;

/// One of a list of integers.
pub const SQUASH_OPTION_TYPE_ENUM_INT: SquashOptionType = 0x13;

/// An integer within a range.
pub const SQUASH_OPTION_TYPE_RANGE_INT: SquashOptionType = 0x23;

/// A size within a range.
pub const SQUASH_OPTION_TYPE_RANGE_SIZE: SquashOptionType = 0x24;

/// An item in a map of strings to integer values.
pub struct SquashOptionInfoEnumStringMap {
    /// A string that stands for the value.
    pub name: String,
    /// The value.
    pub value: i32,
}

/// A list of strings which are mapped to integer values.
pub struct SquashOptionInfoEnumString {
    /// The pairs of string and integer.
    pub values: Vec<SquashOptionInfoEnumStringMap>,
}

/// A list of potential integer values.
pub struct SquashOptionInfoEnumInt {
    /// The integers that the option accepts.
    pub values: Vec<i32>,
}

/// A range of potential integer values.
#[derive(Clone, Copy)]
pub struct SquashOptionInfoRangeInt {
    /// The least value.
    pub min: i32,
    /// The greatest value.
    pub max: i32,
    /// A number that every value must be a multiple of, or 0 to accept all.
    pub modulus: i32,
    /// Whether zero is accepted too, whatever the range and the modulus say.
    pub allow_zero: bool,
}

/// A range of potential size values.
#[derive(Clone, Copy)]
pub struct SquashOptionInfoRangeSize {
    /// The least value.
    pub min: usize,
    /// The greatest value.
    pub max: usize,
    /// A number that every value must be a multiple of, or 0 to accept all.
    pub modulus: usize,
    /// Whether zero is accepted too, whatever the range and the modulus say.
    pub allow_zero: bool,
}

/// A value of an option. Its variant is chosen when the schema is written
/// and never read as another.
pub enum SquashOptionValue {
    /// A boolean.
    Bool(bool),
    /// A signed integer.
    Int(i32),
    /// An unsigned size.
    Size(usize),
    /// A string.
    String(String),
}

/// What a schema entry says of its values beyond their kind.
pub enum SquashOptionInfoUnion {
    /// Nothing: every value of the kind is accepted.
    Unconstrained,
    /// The strings that are accepted, each with the integer it stands for.
    EnumString(SquashOptionInfoEnumString),
    /// The integers that are accepted.
    EnumInt(SquashOptionInfoEnumInt),
    /// The range of the integers that are accepted.
    RangeInt(SquashOptionInfoRangeInt),
    /// The range of the sizes that are accepted.
    RangeSize(SquashOptionInfoRangeSize),
}

/// Information about an option which can be passed to a codec.
pub struct SquashOptionInfo {
    /// Name of the option.
    pub name: String,
    /// Kind of the option.
    pub option_type: SquashOptionType,
    /// Detailed information about the value.
    pub info: SquashOptionInfoUnion,
    /// Value to use if none is provided by the user.
    pub default_value: SquashOptionValue,
}

impl SquashOptionInfoRangeInt {
    /// Whether the range accepts `value`.
    pub open spec fn permits(self, value: i32) -> bool {
        (value == 0 && self.allow_zero) || (self.min <= value <= self.max && (self.modulus == 0
            || value as int % self.modulus as int == 0))
    }

    /// Whether the range accepts `value`.
    pub fn accepts(&self, value: i32) -> (accepted: bool)
        ensures
            accepted == self.permits(value),
    {
        if value == 0 && self.allow_zero {
            return true;
        }
        if value < self.min || value > self.max {
            return false;
        }
        if self.modulus == 0 {
            return true;
        }
        is_multiple(value, self.modulus)
    }
}

/// The distance of `value` from zero.
fn magnitude(value: i32) -> (distance: i64)
    ensures
        distance >= 0,
        distance == value || distance == -value,
{
    let wide: i64 = value as i64;
    if wide < 0 {
        -wide
    } else {
        wide
    }
}

/// A number that leaves no remainder keeps leaving none when the signs of the
/// number and of the divisor change.
proof fn lemma_multiple_signs(value: int, modulus: int, a: int, b: int)
    requires
        modulus != 0,
        a == value || a == -value,
        b == modulus || b == -modulus,
        b > 0,
    ensures
        (a % b == 0) == (value % modulus == 0),
{
    assert((value % b == 0) == (value % modulus == 0)) by (nonlinear_arith)
        requires
            b == modulus || b == -modulus,
            b > 0,
    ;
    if a != value {
        if value % b == 0 {
            let k = value / b;
            vstd::arithmetic::div_mod::lemma_fundamental_div_mod(value, b);
            assert(a == (-k) * b) by (nonlinear_arith)
                requires
                    value == b * k + 0,
                    a == -value,
            ;
            vstd::arithmetic::div_mod::lemma_mod_multiples_basic(-k, b);
        }
        if a % b == 0 {
            let k = a / b;
            vstd::arithmetic::div_mod::lemma_fundamental_div_mod(a, b);
            assert(value == (-k) * b) by (nonlinear_arith)
                requires
                    a == b * k + 0,
                    a == -value,
            ;
            vstd::arithmetic::div_mod::lemma_mod_multiples_basic(-k, b);
        }
    }
}

/// Whether `value` is a multiple of `modulus`.
fn is_multiple(value: i32, modulus: i32) -> (multiple: bool)
    requires
        modulus != 0,
    ensures
        multiple == (value as int % modulus as int == 0),
{
    let a: i64 = magnitude(value);
    let b: i64 = magnitude(modulus);
    proof {
        lemma_multiple_signs(value as int, modulus as int, a as int, b as int);
    }
    a % b == 0
}

impl SquashOptionInfoRangeSize {
    /// Whether the range accepts `value`.
    pub open spec fn permits(self, value: usize) -> bool {
        (value == 0 && self.allow_zero) || (self.min <= value <= self.max && (self.modulus == 0
            || value % self.modulus == 0))
    }

    /// Whether the range accepts `value`.
    pub fn accepts(&self, value: usize) -> (accepted: bool)
        ensures
            accepted == self.permits(value),
    {
        if value == 0 && self.allow_zero {
            return true;
        }
        if value < self.min || value > self.max {
            return false;
        }
        if self.modulus == 0 {
            return true;
        }
        value % self.modulus == 0
    }
}

/// What a value of an option is.
pub ghost enum SquashOptionValueView {
    /// A boolean.
    Bool(bool),
    /// A signed integer.
    Int(i32),
    /// An unsigned size.
    Size(usize),
    /// A string.
    String(Seq<char>),
}

impl View for SquashOptionValue {
    type V = SquashOptionValueView;

    open spec fn view(&self) -> SquashOptionValueView {
        match *self {
            SquashOptionValue::Bool(value) => SquashOptionValueView::Bool(value),
            SquashOptionValue::Int(value) => SquashOptionValueView::Int(value),
            SquashOptionValue::Size(value) => SquashOptionValueView::Size(value),
            SquashOptionValue::String(value) => SquashOptionValueView::String(value@),
        }
    }
}

impl SquashOptionValue {
    /// A value equal to this one.
    pub fn duplicate(&self) -> (copy: SquashOptionValue)
        ensures
            copy@ == self@,
    {
        match self {
            SquashOptionValue::Bool(value) => SquashOptionValue::Bool(*value),
            SquashOptionValue::Int(value) => SquashOptionValue::Int(*value),
            SquashOptionValue::Size(value) => SquashOptionValue::Size(*value),
            SquashOptionValue::String(value) => SquashOptionValue::String(value.clone()),
        }
    }

    /// The value as a string, if it is one.
    pub fn string_value(&self) -> (value: Option<&str>)
        ensures
            match value {
                Some(text) => self@ == SquashOptionValueView::String(text@),
                None => !(self@ is String),
            },
    {
        match self {
            SquashOptionValue::String(value) => Some(value.as_str()),
            _ => None,
        }
    }

    /// The value as an integer, if it is one.
    pub fn int_value(&self) -> (value: Option<i32>)
        ensures
            match value {
                Some(number) => self@ == SquashOptionValueView::Int(number),
                None => !(self@ is Int),
            },
    {
        match self {
            SquashOptionValue::Int(value) => Some(*value),
            _ => None,
        }
    }

    /// The value as a boolean, if it is one.
    pub fn bool_value(&self) -> (value: Option<bool>)
        ensures
            match value {
                Some(flag) => self@ == SquashOptionValueView::Bool(flag),
                None => !(self@ is Bool),
            },
    {
        match self {
            SquashOptionValue::Bool(value) => Some(*value),
            _ => None,
        }
    }

    /// The value as a size, if it is one.
    pub fn size_value(&self) -> (value: Option<usize>)
        ensures
            match value {
                Some(size) => self@ == SquashOptionValueView::Size(size),
                None => !(self@ is Size),
            },
    {
        match self {
            SquashOptionValue::Size(value) => Some(*value),
            _ => None,
        }
    }
}

impl SquashOptionValue {
    /// The value as a string that can be changed, if it is one.
    pub fn string_value_mut(&mut self) -> (value: Option<&mut String>)
        ensures
            match value {
                Some(text) => {
                    &&& old(self)@ == SquashOptionValueView::String(text@)
                    &&& final(self)@ == SquashOptionValueView::String(final(text)@)
                },
                None => !(old(self)@ is String) && *final(self) == *old(self),
            },
    {
        match self {
            SquashOptionValue::String(value) => Some(value),
            _ => None,
        }
    }

    /// The value as an integer that can be changed, if it is one.
    pub fn int_value_mut(&mut self) -> (value: Option<&mut i32>)
        ensures
            match value {
                Some(number) => {
                    &&& old(self)@ == SquashOptionValueView::Int(*number)
                    &&& final(self)@ == SquashOptionValueView::Int(*final(number))
                },
                None => !(old(self)@ is Int) && *final(self) == *old(self),
            },
    {
        match self {
            SquashOptionValue::Int(value) => Some(value),
            _ => None,
        }
    }

    /// The value as a boolean that can be changed, if it is one.
    pub fn bool_value_mut(&mut self) -> (value: Option<&mut bool>)
        ensures
            match value {
                Some(flag) => {
                    &&& old(self)@ == SquashOptionValueView::Bool(*flag)
                    &&& final(self)@ == SquashOptionValueView::Bool(*final(flag))
                },
                None => !(old(self)@ is Bool) && *final(self) == *old(self),
            },
    {
        match self {
            SquashOptionValue::Bool(value) => Some(value),
            _ => None,
        }
    }

    /// The value as a size that can be changed, if it is one.
    pub fn size_value_mut(&mut self) -> (value: Option<&mut usize>)
        ensures
            match value {
                Some(size) => {
                    &&& old(self)@ == SquashOptionValueView::Size(*size)
                    &&& final(self)@ == SquashOptionValueView::Size(*final(size))
                },
                None => !(old(self)@ is Size) && *final(self) == *old(self),
            },
    {
        match self {
            SquashOptionValue::Size(value) => Some(value),
            _ => None,
        }
    }
}

impl SquashOptionInfoUnion {
    /// The list of strings, if that is what this is.
    pub fn enum_string(&self) -> (list: Option<&SquashOptionInfoEnumString>)
        ensures
            match list {
                Some(list) => *self == SquashOptionInfoUnion::EnumString(*list),
                None => !(self is EnumString),
            },
    {
        match self {
            SquashOptionInfoUnion::EnumString(list) => Some(list),
            _ => None,
        }
    }

    /// The list of integers, if that is what this is.
    pub fn enum_int(&self) -> (list: Option<&SquashOptionInfoEnumInt>)
        ensures
            match list {
                Some(list) => *self == SquashOptionInfoUnion::EnumInt(*list),
                None => !(self is EnumInt),
            },
    {
        match self {
            SquashOptionInfoUnion::EnumInt(list) => Some(list),
            _ => None,
        }
    }

    /// The range of integers, if that is what this is.
    pub fn range_int(&self) -> (range: Option<&SquashOptionInfoRangeInt>)
        ensures
            match range {
                Some(range) => *self == SquashOptionInfoUnion::RangeInt(*range),
                None => !(self is RangeInt),
            },
    {
        match self {
            SquashOptionInfoUnion::RangeInt(range) => Some(range),
            _ => None,
        }
    }

    /// The range of sizes, if that is what this is.
    pub fn range_size(&self) -> (range: Option<&SquashOptionInfoRangeSize>)
        ensures
            match range {
                Some(range) => *self == SquashOptionInfoUnion::RangeSize(*range),
                None => !(self is RangeSize),
            },
    {
        match self {
            SquashOptionInfoUnion::RangeSize(range) => Some(range),
            _ => None,
        }
    }
}

impl SquashOptionInfoEnumString {
    /// Whether one of the strings of the list stands for `value`.
    pub open spec fn permits(self, value: i32) -> bool {
        exists|i: int| 0 <= i < self.values@.len() && #[trigger] self.values@[i].value == value
    }

    /// Where in the list, from `from` on, the string `name` first stands.
    pub open spec fn position(self, name: Seq<char>, from: int) -> Option<int>
        decreases self.values@.len() - from,
    {
        if from < 0 || from >= self.values@.len() {
            None
        } else if self.values@[from].name@ == name {
            Some(from)
        } else {
            self.position(name, from + 1)
        }
    }

    /// The integer that the string `name` stands for, if the list has it.
    pub open spec fn value_of(self, name: Seq<char>) -> Option<i32> {
        match self.position(name, 0) {
            Some(i) => Some(self.values@[i].value),
            None => None,
        }
    }

    /// Whether one of the strings of the list stands for `value`.
    pub fn accepts(&self, value: i32) -> (accepted: bool)
        ensures
            accepted == self.permits(value),
    {
        let mut i: usize = 0;
        while i < self.values.len()
            invariant
                i <= self.values@.len(),
                forall|k: int| 0 <= k < i ==> #[trigger] self.values@[k].value != value,
            decreases self.values@.len() - i,
        {
            if self.values[i].value == value {
                return true;
            }
            i = i + 1;
        }
        false
    }

    /// The integer that the string `name` stands for, if the list has it.
    pub fn lookup(&self, name: &str) -> (value: Option<i32>)
        ensures
            value == self.value_of(name@),
            value matches Some(number) ==> self.permits(number),
    {
        let mut i: usize = 0;
        while i < self.values.len()
            invariant
                i <= self.values@.len(),
                self.position(name@, 0) == self.position(name@, i as int),
            decreases self.values@.len() - i,
        {
            if squash_text_equal(self.values[i].name.as_str(), name) {
                return Some(self.values[i].value);
            }
            i = i + 1;
        }
        None
    }
}

impl SquashOptionInfoEnumInt {
    /// Whether `value` is in the list.
    pub open spec fn permits(self, value: i32) -> bool {
        self.values@.contains(value)
    }

    /// Whether `value` is in the list.
    pub fn accepts(&self, value: i32) -> (accepted: bool)
        ensures
            accepted == self.permits(value),
    {
        let mut i: usize = 0;
        while i < self.values.len()
            invariant
                i <= self.values@.len(),
                forall|k: int| 0 <= k < i ==> self.values@[k] != value,
            decreases self.values@.len() - i,
        {
            if self.values[i] == value {
                return true;
            }
            i = i + 1;
        }
        false
    }
}

impl SquashOptionInfo {
    /// Whether the entry permits `value`: the value is of the kind that the
    /// entry stores, and the list or the range of the entry, where it has
    /// one, accepts it. An entry that takes one of a list of strings stores
    /// the integer that the string stands for.
    pub open spec fn permits(&self, value: SquashOptionValueView) -> bool {
        if self.option_type == SQUASH_OPTION_TYPE_BOOL {
            value is Bool
        } else if self.option_type == SQUASH_OPTION_TYPE_STRING {
            value is String
        } else if self.option_type == SQUASH_OPTION_TYPE_INT {
            value is Int
        } else if self.option_type == SQUASH_OPTION_TYPE_SIZE {
            value is Size
        } else if self.option_type == SQUASH_OPTION_TYPE_ENUM_STRING {
            &&& self.info matches SquashOptionInfoUnion::EnumString(list)
            &&& value matches SquashOptionValueView::Int(number)
            &&& list.permits(number)
        } else if self.option_type == SQUASH_OPTION_TYPE_ENUM_INT {
            &&& self.info matches SquashOptionInfoUnion::EnumInt(list)
            &&& value matches SquashOptionValueView::Int(number)
            &&& list.permits(number)
        } else if self.option_type == SQUASH_OPTION_TYPE_RANGE_INT {
            &&& self.info matches SquashOptionInfoUnion::RangeInt(range)
            &&& value matches SquashOptionValueView::Int(number)
            &&& range.permits(number)
        } else if self.option_type == SQUASH_OPTION_TYPE_RANGE_SIZE {
            &&& self.info matches SquashOptionInfoUnion::RangeSize(range)
            &&& value matches SquashOptionValueView::Size(size)
            &&& range.permits(size)
        } else {
            false
        }
    }

    /// Whether the entry is well formed: it permits its own default value.
    /// The kind of such an entry is one of the eight kinds of option, and
    /// its list or range is the one that the kind calls for.
    pub open spec fn wf(&self) -> bool {
        self.permits(self.default_value@)
    }

    /// What assigning `value` to the option of this entry stores, or the
    /// status with which the assignment fails.
    ///
    /// A value of a kind that the entry does not take fails with
    /// `SQUASH_BAD_PARAM`. A string or an integer that is not in the list of
    /// the entry fails with `SQUASH_BAD_VALUE`. An integer or a size that
    /// the range of the entry does not accept fails with `SQUASH_RANGE`. An
    /// entry that takes one of a list of strings takes a string, and stores
    /// the integer that the string stands for.
    pub open spec fn stored(&self, value: SquashOptionValueView) -> Result<
        SquashOptionValueView,
        SquashStatus,
    > {
        let ranged = self.option_type == SQUASH_OPTION_TYPE_RANGE_INT || self.option_type
            == SQUASH_OPTION_TYPE_RANGE_SIZE;
        if self.option_type == SQUASH_OPTION_TYPE_ENUM_STRING {
            match (self.info, value) {
                (
                    SquashOptionInfoUnion::EnumString(list),
                    SquashOptionValueView::String(name),
                ) => match list.value_of(name) {
                    Some(number) => Ok(SquashOptionValueView::Int(number)),
                    None => Err(SQUASH_BAD_VALUE),
                },
                _ => Err(SQUASH_BAD_PARAM),
            }
        } else if self.permits(value) {
            Ok(value)
        } else if squash_option_takes(self.option_type, value) {
            if ranged {
                Err(SQUASH_RANGE)
            } else {
                Err(SQUASH_BAD_VALUE)
            }
        } else {
            Err(SQUASH_BAD_PARAM)
        }
    }

    /// The value that `text` spells for the option of this entry, or the
    /// status with which reading it fails.
    ///
    /// A text that spells no value of the kind of the entry fails with
    /// `SQUASH_BAD_VALUE`, and a number that is too large for its kind with
    /// `SQUASH_RANGE`. An entry of no kind fails with `SQUASH_BAD_PARAM`.
    pub open spec fn spelled(&self, text: Seq<char>) -> Result<
        SquashOptionValueView,
        SquashStatus,
    > {
        let bytes = vstd::utf8::encode_utf8(text);
        if self.option_type == SQUASH_OPTION_TYPE_BOOL {
            match squash_text_bool(bytes) {
                Some(flag) => Ok(SquashOptionValueView::Bool(flag)),
                None => Err(SQUASH_BAD_VALUE),
            }
        } else if self.option_type == SQUASH_OPTION_TYPE_STRING || self.option_type
            == SQUASH_OPTION_TYPE_ENUM_STRING {
            Ok(SquashOptionValueView::String(text))
        } else if self.option_type == SQUASH_OPTION_TYPE_INT || self.option_type
            == SQUASH_OPTION_TYPE_ENUM_INT || self.option_type == SQUASH_OPTION_TYPE_RANGE_INT {
            match squash_text_integer(bytes) {
                Some(number) => if i32::MIN <= number <= i32::MAX {
                    Ok(SquashOptionValueView::Int(number as i32))
                } else {
                    Err(SQUASH_RANGE)
                },
                None => Err(SQUASH_BAD_VALUE),
            }
        } else if self.option_type == SQUASH_OPTION_TYPE_SIZE || self.option_type
            == SQUASH_OPTION_TYPE_RANGE_SIZE {
            match squash_text_integer(bytes) {
                Some(number) => if 0 <= number <= usize::MAX {
                    Ok(SquashOptionValueView::Size(number as usize))
                } else {
                    Err(SQUASH_RANGE)
                },
                None => Err(SQUASH_BAD_VALUE),
            }
        } else {
            Err(SQUASH_BAD_PARAM)
        }
    }

    /// Whether the entry permits `value`.
    pub fn accepts(&self, value: &SquashOptionValue) -> (accepted: bool)
        ensures
            accepted == self.permits(value@),
    {
        if self.option_type == SQUASH_OPTION_TYPE_BOOL {
            match value {
                SquashOptionValue::Bool(_) => true,
                _ => false,
            }
        } else if self.option_type == SQUASH_OPTION_TYPE_STRING {
            match value {
                SquashOptionValue::String(_) => true,
                _ => false,
            }
        } else if self.option_type == SQUASH_OPTION_TYPE_INT {
            match value {
                SquashOptionValue::Int(_) => true,
                _ => false,
            }
        } else if self.option_type == SQUASH_OPTION_TYPE_SIZE {
            match value {
                SquashOptionValue::Size(_) => true,
                _ => false,
            }
        } else if self.option_type == SQUASH_OPTION_TYPE_ENUM_STRING {
            match (&self.info, value) {
                (SquashOptionInfoUnion::EnumString(list), SquashOptionValue::Int(number)) => {
                    list.accepts(*number)
                },
                _ => false,
            }
        } else if self.option_type == SQUASH_OPTION_TYPE_ENUM_INT {
            match (&self.info, value) {
                (SquashOptionInfoUnion::EnumInt(list), SquashOptionValue::Int(number)) => {
                    list.accepts(*number)
                },
                _ => false,
            }
        } else if self.option_type == SQUASH_OPTION_TYPE_RANGE_INT {
            match (&self.info, value) {
                (SquashOptionInfoUnion::RangeInt(range), SquashOptionValue::Int(number)) => {
                    range.accepts(*number)
                },
                _ => false,
            }
        } else if self.option_type == SQUASH_OPTION_TYPE_RANGE_SIZE {
            match (&self.info, value) {
                (SquashOptionInfoUnion::RangeSize(range), SquashOptionValue::Size(size)) => {
                    range.accepts(*size)
                },
                _ => false,
            }
        } else {
            false
        }
    }

    /// What assigning `value` to the option of this entry stores, or the
    /// status with which the assignment fails.
    pub fn convert(&self, value: SquashOptionValue) -> (converted: Result<
        SquashOptionValue,
        SquashStatus,
    >)
        ensures
            match converted {
                Ok(kept) => self.stored(value@) == Ok::<SquashOptionValueView, SquashStatus>(kept@),
                Err(status) => self.stored(value@) == Err::<SquashOptionValueView, SquashStatus>(
                    status,
                ),
            },
            converted matches Ok(kept) ==> self.permits(kept@),
    {
        if self.option_type == SQUASH_OPTION_TYPE_ENUM_STRING {
            return match (&self.info, &value) {
                (SquashOptionInfoUnion::EnumString(list), SquashOptionValue::String(name)) => {
                    match list.lookup(name.as_str()) {
                        Some(number) => Ok(SquashOptionValue::Int(number)),
                        None => Err(squash_error(SQUASH_BAD_VALUE)),
                    }
                },
                _ => Err(squash_error(SQUASH_BAD_PARAM)),
            };
        }
        if self.accepts(&value) {
            return Ok(value);
        }
        let fitting: bool = squash_option_fits(self.option_type, &value);
        if !fitting {
            Err(squash_error(SQUASH_BAD_PARAM))
        } else if self.option_type == SQUASH_OPTION_TYPE_RANGE_INT || self.option_type
            == SQUASH_OPTION_TYPE_RANGE_SIZE {
            Err(squash_error(SQUASH_RANGE))
        } else {
            Err(squash_error(SQUASH_BAD_VALUE))
        }
    }

    /// The value that `text` spells for the option of this entry, or the
    /// status with which reading it fails.
    pub fn read(&self, text: &str) -> (read: Result<SquashOptionValue, SquashStatus>)
        ensures
            match read {
                Ok(value) => self.spelled(text@) == Ok::<SquashOptionValueView, SquashStatus>(
                    value@,
                ),
                Err(status) => self.spelled(text@) == Err::<SquashOptionValueView, SquashStatus>(
                    status,
                ),
            },
    {
        let kind: SquashOptionType = self.option_type;
        if kind == SQUASH_OPTION_TYPE_BOOL {
            match squash_text_to_bool(text.as_bytes()) {
                Some(flag) => Ok(SquashOptionValue::Bool(flag)),
                None => Err(squash_error(SQUASH_BAD_VALUE)),
            }
        } else if kind == SQUASH_OPTION_TYPE_STRING || kind == SQUASH_OPTION_TYPE_ENUM_STRING {
            Ok(SquashOptionValue::String(text.to_owned()))
        } else if kind == SQUASH_OPTION_TYPE_INT || kind == SQUASH_OPTION_TYPE_ENUM_INT || kind
            == SQUASH_OPTION_TYPE_RANGE_INT {
            match squash_text_to_int(text.as_bytes()) {
                SquashNumber::Value(number) => Ok(SquashOptionValue::Int(number)),
                SquashNumber::OutOfRange => Err(squash_error(SQUASH_RANGE)),
                SquashNumber::Malformed => Err(squash_error(SQUASH_BAD_VALUE)),
            }
        } else if kind == SQUASH_OPTION_TYPE_SIZE || kind == SQUASH_OPTION_TYPE_RANGE_SIZE {
            match squash_text_to_size(text.as_bytes()) {
                SquashNumber::Value(number) => Ok(SquashOptionValue::Size(number)),
                SquashNumber::OutOfRange => Err(squash_error(SQUASH_RANGE)),
                SquashNumber::Malformed => Err(squash_error(SQUASH_BAD_VALUE)),
            }
        } else {
            Err(squash_error(SQUASH_BAD_PARAM))
        }
    }
}

/// Whether an option of kind `option_type` takes values of the kind of
/// `value`: booleans, strings, integers or sizes.
pub open spec fn squash_option_takes(
    option_type: SquashOptionType,
    value: SquashOptionValueView,
) -> bool {
    match value {
        SquashOptionValueView::Bool(_) => option_type == SQUASH_OPTION_TYPE_BOOL,
        SquashOptionValueView::String(_) => option_type == SQUASH_OPTION_TYPE_STRING
            || option_type == SQUASH_OPTION_TYPE_ENUM_STRING,
        SquashOptionValueView::Int(_) => option_type == SQUASH_OPTION_TYPE_INT || option_type
            == SQUASH_OPTION_TYPE_ENUM_INT || option_type == SQUASH_OPTION_TYPE_RANGE_INT,
        SquashOptionValueView::Size(_) => option_type == SQUASH_OPTION_TYPE_SIZE || option_type
            == SQUASH_OPTION_TYPE_RANGE_SIZE,
    }
}

/// Whether an option of kind `option_type` takes values of the kind of
/// `value`.
pub fn squash_option_fits(option_type: SquashOptionType, value: &SquashOptionValue) -> (fits: bool)
    ensures
        fits == squash_option_takes(option_type, value@),
{
    match value {
        SquashOptionValue::Bool(_) => option_type == SQUASH_OPTION_TYPE_BOOL,
        SquashOptionValue::String(_) => option_type == SQUASH_OPTION_TYPE_STRING || option_type
            == SQUASH_OPTION_TYPE_ENUM_STRING,
        SquashOptionValue::Int(_) => option_type == SQUASH_OPTION_TYPE_INT || option_type
            == SQUASH_OPTION_TYPE_ENUM_INT || option_type == SQUASH_OPTION_TYPE_RANGE_INT,
        SquashOptionValue::Size(_) => option_type == SQUASH_OPTION_TYPE_SIZE || option_type
            == SQUASH_OPTION_TYPE_RANGE_SIZE,
    }
}

/// Whether every entry of `schema` is well formed.
pub open spec fn squash_option_schema_wf(schema: Seq<SquashOptionInfo>) -> bool {
    forall|i: int| 0 <= i < schema.len() ==> (#[trigger] schema[i]).wf()
}

/// Whether every entry of `schema` is well formed.
pub fn squash_option_schema_check(schema: &Vec<SquashOptionInfo>) -> (valid: bool)
    ensures
        valid == squash_option_schema_wf(schema@),
{
    let mut i: usize = 0;
    while i < schema.len()
        invariant
            i <= schema@.len(),
            forall|k: int| 0 <= k < i ==> (#[trigger] schema@[k]).wf(),
        decreases schema@.len() - i,
    {
        if !schema[i].accepts(&schema[i].default_value) {
            return false;
        }
        i = i + 1;
    }
    true
}

/// Where in `schema`, from `from` on, the first option named `key` stands.
pub open spec fn squash_option_position(
    schema: Seq<SquashOptionInfo>,
    key: Seq<char>,
    from: int,
) -> Option<int>
    decreases schema.len() - from,
{
    if from < 0 || from >= schema.len() {
        None
    } else if schema[from].name@ == key {
        Some(from)
    } else {
        squash_option_position(schema, key, from + 1)
    }
}

/// What `squash_option_position` finds is an option of that name, and no
/// option before it has the name.
pub proof fn lemma_option_position(schema: Seq<SquashOptionInfo>, key: Seq<char>, from: int)
    requires
        0 <= from,
    ensures
        match squash_option_position(schema, key, from) {
            Some(i) => {
                &&& from <= i < schema.len()
                &&& schema[i].name@ == key
                &&& forall|k: int| from <= k < i ==> (#[trigger] schema[k]).name@ != key
            },
            None => forall|k: int| from <= k < schema.len() ==> (#[trigger] schema[k]).name@ != key,
        },
    decreases schema.len() - from,
{
    if from < schema.len() && schema[from].name@ != key {
        lemma_option_position(schema, key, from + 1);
    }
}

/// A set of compression or decompression options: one value for each entry
/// of the schema of the codec that the set was made for.
pub struct SquashOptions<'a> {
    schema: &'a Vec<SquashOptionInfo>,
    values: Vec<SquashOptionValue>,
}

impl<'a> SquashOptions<'a> {
    /// The schema that the options were made for.
    pub closed spec fn schema(&self) -> Seq<SquashOptionInfo> {
        self.schema@
    }

    /// The values of the options, in the order of the schema.
    pub closed spec fn values(&self) -> Seq<SquashOptionValueView> {
        Seq::new(self.values@.len(), |i: int| self.values@[i]@)
    }

    /// Where the first option named `key` stands in the schema.
    pub open spec fn index_of(&self, key: Seq<char>) -> Option<int> {
        squash_option_position(self.schema(), key, 0)
    }

    /// Whether the options are well formed: there is one value for each
    /// entry of the schema, and each entry permits its value. Every
    /// `SquashOptions` that `new` makes is well formed, and every
    /// assignment keeps it so.
    pub open spec fn wf(&self) -> bool {
        &&& squash_option_schema_wf(self.schema())
        &&& self.values().len() == self.schema().len()
        &&& forall|i: int|
            0 <= i < self.schema().len() ==> (#[trigger] self.schema()[i]).permits(self.values()[i])
    }

    /// The options of a codec with the schema `schema`, each at its default
    /// value; nothing if the schema is not well formed.
    pub fn new(schema: &'a Vec<SquashOptionInfo>) -> (made: Option<SquashOptions<'a>>)
        ensures
            made is Some <==> squash_option_schema_wf(schema@),
            made matches Some(options) ==> {
                &&& options.wf()
                &&& options.schema() == schema@
                &&& options.values().len() == schema@.len()
                &&& forall|i: int|
                    0 <= i < schema@.len() ==> #[trigger] options.values()[i]
                        == schema@[i].default_value@
            },
    {
        if !squash_option_schema_check(schema) {
            return None;
        }
        let mut values: Vec<SquashOptionValue> = Vec::new();
        let mut i: usize = 0;
        while i < schema.len()
            invariant
                i <= schema@.len(),
                values@.len() == i,
                forall|k: int| 0 <= k < i ==> (#[trigger] values@[k])@ == schema@[k].default_value@,
            decreases schema@.len() - i,
        {
            values.push(schema[i].default_value.duplicate());
            i = i + 1;
        }
        Some(SquashOptions { schema, values })
    }

    /// The number of options.
    pub fn len(&self) -> (count: usize)
        ensures
            count == self.schema().len(),
    {
        self.schema.len()
    }

    /// Where the first option named `key` stands in the schema.
    pub fn find(&self, key: &str) -> (index: Option<usize>)
        ensures
            match index {
                Some(i) => self.index_of(key@) == Some(i as int) && i < self.schema().len(),
                None => self.index_of(key@) is None,
            },
    {
        let mut i: usize = 0;
        proof {
            lemma_option_position(self.schema@, key@, 0);
        }
        while i < self.schema.len()
            invariant
                i <= self.schema@.len(),
                squash_option_position(self.schema@, key@, 0) == squash_option_position(
                    self.schema@,
                    key@,
                    i as int,
                ),
            decreases self.schema@.len() - i,
        {
            if squash_text_equal(self.schema[i].name.as_str(), key) {
                return Some(i);
            }
            i = i + 1;
        }
        None
    }
}

/// What assigning `value` to the option at `index` gives: the values
/// afterwards, and the status.
///
/// An index that names no option fails with `SQUASH_BAD_PARAM`; so does a
/// missing index, which stands for a key that names no option. Otherwise
/// the entry of the option decides. An assignment that fails changes
/// nothing.
pub open spec fn squash_options_assigned(
    schema: Seq<SquashOptionInfo>,
    values: Seq<SquashOptionValueView>,
    index: Option<int>,
    value: SquashOptionValueView,
) -> (Seq<SquashOptionValueView>, SquashStatus) {
    match index {
        Some(i) => if 0 <= i < schema.len() {
            match schema[i].stored(value) {
                Ok(kept) => (values.update(i, kept), SQUASH_OK),
                Err(status) => (values, status),
            }
        } else {
            (values, SQUASH_BAD_PARAM)
        },
        None => (values, SQUASH_BAD_PARAM),
    }
}

/// What reading `text` into the option at `index` gives: the values
/// afterwards, and the status.
pub open spec fn squash_options_parsed(
    schema: Seq<SquashOptionInfo>,
    values: Seq<SquashOptionValueView>,
    index: Option<int>,
    text: Seq<char>,
) -> (Seq<SquashOptionValueView>, SquashStatus) {
    match index {
        Some(i) => if 0 <= i < schema.len() {
            match schema[i].spelled(text) {
                Ok(value) => squash_options_assigned(schema, values, index, value),
                Err(status) => (values, status),
            }
        } else {
            (values, SQUASH_BAD_PARAM)
        },
        None => (values, SQUASH_BAD_PARAM),
    }
}

/// What reading the values `texts` into the options named `keys`, pair by
/// pair from `from` on, gives: the values afterwards, and the status. The
/// first pair that fails ends the reading; the pairs before it stay
/// assigned.
pub open spec fn squash_options_parsed_all(
    schema: Seq<SquashOptionInfo>,
    values: Seq<SquashOptionValueView>,
    keys: Seq<Seq<char>>,
    texts: Seq<Seq<char>>,
    from: int,
) -> (Seq<SquashOptionValueView>, SquashStatus)
    decreases keys.len() - from,
{
    if from < 0 || from >= keys.len() || from >= texts.len() {
        (values, SQUASH_OK)
    } else {
        let one = squash_options_parsed(
            schema,
            values,
            squash_option_position(schema, keys[from], 0),
            texts[from],
        );
        if one.1 == SQUASH_OK {
            squash_options_parsed_all(schema, one.0, keys, texts, from + 1)
        } else {
            one
        }
    }
}

impl<'a> SquashOptions<'a> {
    /// Assigns `value` to the option at `index`, if the entry of the option
    /// takes it.
    fn assign(&mut self, index: Option<usize>, value: SquashOptionValue) -> (status: SquashStatus)
        requires
            old(self).wf(),
        ensures
            final(self).wf(),
            final(self).schema() == old(self).schema(),
            (final(self).values(), status) == squash_options_assigned(
                old(self).schema(),
                old(self).values(),
                match index {
                    Some(i) => Some(i as int),
                    None => None,
                },
                value@,
            ),
    {
        let i: usize = match index {
            Some(i) => i,
            None => {
                return squash_error(SQUASH_BAD_PARAM);
            },
        };
        if i >= self.schema.len() {
            return squash_error(SQUASH_BAD_PARAM);
        }
        match self.schema[i].convert(value) {
            Ok(kept) => {
                self.values[i] = kept;
                SQUASH_OK
            },
            Err(status) => status,
        }
    }

    /// The value of the option at `index`.
    fn value_at(&self, index: Option<usize>) -> (value: Option<&SquashOptionValue>)
        requires
            self.wf(),
        ensures
            match value {
                Some(value) => index matches Some(i) && i < self.schema().len() && value@
                    == self.values()[i as int],
                None => !(index matches Some(i) && i < self.schema().len()),
            },
    {
        match index {
            Some(i) => if i < self.values.len() {
                Some(&self.values[i])
            } else {
                None
            },
            None => None,
        }
    }

    /// Sets the value of the string option at `index`. Of an option that
    /// takes one of a list of strings, `value` names the one to take.
    ///
    /// Returns `SQUASH_OK` if the option was set, `SQUASH_BAD_PARAM` if
    /// `index` names no option that takes strings, and `SQUASH_BAD_VALUE` if
    /// the option does not take this string.
    pub fn set_string_at(&mut self, index: usize, value: &str) -> (status: SquashStatus)
        requires
            old(self).wf(),
        ensures
            final(self).wf(),
            final(self).schema() == old(self).schema(),
            (final(self).values(), status) == squash_options_assigned(
                old(self).schema(),
                old(self).values(),
                Some(index as int),
                SquashOptionValueView::String(value@),
            ),
    {
        self.assign(Some(index), SquashOptionValue::String(value.to_owned()))
    }

    /// Sets the value of the boolean option at `index`.
    ///
    /// Returns `SQUASH_OK` if the option was set, and `SQUASH_BAD_PARAM` if
    /// `index` names no option that takes booleans.
    pub fn set_bool_at(&mut self, index: usize, value: bool) -> (status: SquashStatus)
        requires
            old(self).wf(),
        ensures
            final(self).wf(),
            final(self).schema() == old(self).schema(),
            (final(self).values(), status) == squash_options_assigned(
                old(self).schema(),
                old(self).values(),
                Some(index as int),
                SquashOptionValueView::Bool(value),
            ),
    {
        self.assign(Some(index), SquashOptionValue::Bool(value))
    }

    /// Sets the value of the integer option at `index`.
    ///
    /// Returns `SQUASH_OK` if the option was set, `SQUASH_BAD_PARAM` if
    /// `index` names no option that takes integers, `SQUASH_BAD_VALUE` if
    /// the value is not in the list of the option, and `SQUASH_RANGE` if the
    /// range of the option does not accept it.
    pub fn set_int_at(&mut self, index: usize, value: i32) -> (status: SquashStatus)
        requires
            old(self).wf(),
        ensures
            final(self).wf(),
            final(self).schema() == old(self).schema(),
            (final(self).values(), status) == squash_options_assigned(
                old(self).schema(),
                old(self).values(),
                Some(index as int),
                SquashOptionValueView::Int(value),
            ),
    {
        self.assign(Some(index), SquashOptionValue::Int(value))
    }

    /// Sets the value of the size option at `index`.
    ///
    /// Returns `SQUASH_OK` if the option was set, `SQUASH_BAD_PARAM` if
    /// `index` names no option that takes sizes, and `SQUASH_RANGE` if the
    /// range of the option does not accept the value.
    pub fn set_size_at(&mut self, index: usize, value: usize) -> (status: SquashStatus)
        requires
            old(self).wf(),
        ensures
            final(self).wf(),
            final(self).schema() == old(self).schema(),
            (final(self).values(), status) == squash_options_assigned(
                old(self).schema(),
                old(self).values(),
                Some(index as int),
                SquashOptionValueView::Size(value),
            ),
    {
        self.assign(Some(index), SquashOptionValue::Size(value))
    }

    /// Sets the value of the string option named `key`.
    ///
    /// Returns what `set_string_at` returns for the first option of that
    /// name, and `SQUASH_BAD_PARAM` if there is none.
    pub fn set_string(&mut self, key: &str, value: &str) -> (status: SquashStatus)
        requires
            old(self).wf(),
        ensures
            final(self).wf(),
            final(self).schema() == old(self).schema(),
            (final(self).values(), status) == squash_options_assigned(
                old(self).schema(),
                old(self).values(),
                old(self).index_of(key@),
                SquashOptionValueView::String(value@),
            ),
    {
        let index: Option<usize> = self.find(key);
        self.assign(index, SquashOptionValue::String(value.to_owned()))
    }

    /// Sets the value of the boolean option named `key`.
    ///
    /// Returns what `set_bool_at` returns for the first option of that name,
    /// and `SQUASH_BAD_PARAM` if there is none.
    pub fn set_bool(&mut self, key: &str, value: bool) -> (status: SquashStatus)
        requires
            old(self).wf(),
        ensures
            final(self).wf(),
            final(self).schema() == old(self).schema(),
            (final(self).values(), status) == squash_options_assigned(
                old(self).schema(),
                old(self).values(),
                old(self).index_of(key@),
                SquashOptionValueView::Bool(value),
            ),
    {
        let index: Option<usize> = self.find(key);
        self.assign(index, SquashOptionValue::Bool(value))
    }

    /// Sets the value of the integer option named `key`.
    ///
    /// Returns what `set_int_at` returns for the first option of that name,
    /// and `SQUASH_BAD_PARAM` if there is none.
    pub fn set_int(&mut self, key: &str, value: i32) -> (status: SquashStatus)
        requires
            old(self).wf(),
        ensures
            final(self).wf(),
            final(self).schema() == old(self).schema(),
            (final(self).values(), status) == squash_options_assigned(
                old(self).schema(),
                old(self).values(),
                old(self).index_of(key@),
                SquashOptionValueView::Int(value),
            ),
    {
        let index: Option<usize> = self.find(key);
        self.assign(index, SquashOptionValue::Int(value))
    }

    /// Sets the value of the size option named `key`.
    ///
    /// Returns what `set_size_at` returns for the first option of that name,
    /// and `SQUASH_BAD_PARAM` if there is none.
    pub fn set_size(&mut self, key: &str, value: usize) -> (status: SquashStatus)
        requires
            old(self).wf(),
        ensures
            final(self).wf(),
            final(self).schema() == old(self).schema(),
            (final(self).values(), status) == squash_options_assigned(
                old(self).schema(),
                old(self).values(),
                old(self).index_of(key@),
                SquashOptionValueView::Size(value),
            ),
    {
        let index: Option<usize> = self.find(key);
        self.assign(index, SquashOptionValue::Size(value))
    }

    /// Reads `value` into the option named `key`.
    ///
    /// Returns `SQUASH_OK` if the option was set, `SQUASH_BAD_PARAM` if no
    /// option has that name, `SQUASH_BAD_VALUE` if the text spells no value
    /// that the option takes, and `SQUASH_RANGE` if it spells a number that
    /// is well formed but outside the range that is allowed.
    pub fn parse_option(&mut self, key: &str, value: &str) -> (status: SquashStatus)
        requires
            old(self).wf(),
        ensures
            final(self).wf(),
            final(self).schema() == old(self).schema(),
            (final(self).values(), status) == squash_options_parsed(
                old(self).schema(),
                old(self).values(),
                old(self).index_of(key@),
                value@,
            ),
    {
        let index: Option<usize> = self.find(key);
        let i: usize = match index {
            Some(i) => i,
            None => {
                return squash_error(SQUASH_BAD_PARAM);
            },
        };
        match self.schema[i].read(value) {
            Ok(read) => self.assign(index, read),
            Err(status) => status,
        }
    }

    /// Reads the values `values` into the options named `keys`, pair by
    /// pair, as far as both lists go. Stops at the first pair that fails and
    /// returns its status; the pairs before it stay assigned.
    pub fn parsea(&mut self, keys: &[&str], values: &[&str]) -> (status: SquashStatus)
        requires
            old(self).wf(),
        ensures
            final(self).wf(),
            final(self).schema() == old(self).schema(),
            (final(self).values(), status) == squash_options_parsed_all(
                old(self).schema(),
                old(self).values(),
                Seq::new(keys@.len(), |i: int| keys@[i]@),
                Seq::new(values@.len(), |i: int| values@[i]@),
                0,
            ),
    {
        let ghost names = Seq::new(keys@.len(), |i: int| keys@[i]@);
        let ghost texts = Seq::new(values@.len(), |i: int| values@[i]@);
        let ghost schema = self.schema();
        let ghost whole = squash_options_parsed_all(schema, self.values(), names, texts, 0);
        let mut i: usize = 0;
        while i < keys.len() && i < values.len()
            invariant
                self.wf(),
                self.schema() == schema,
                schema == old(self).schema(),
                names == Seq::new(keys@.len(), |i: int| keys@[i]@),
                texts == Seq::new(values@.len(), |i: int| values@[i]@),
                whole == squash_options_parsed_all(schema, self.values(), names, texts, i as int),
                whole == squash_options_parsed_all(
                    old(self).schema(),
                    old(self).values(),
                    Seq::new(keys@.len(), |i: int| keys@[i]@),
                    Seq::new(values@.len(), |i: int| values@[i]@),
                    0,
                ),
            decreases keys@.len() - i,
        {
            let status: SquashStatus = self.parse_option(keys[i], values[i]);
            if status != SQUASH_OK {
                return status;
            }
            i = i + 1;
        }
        SQUASH_OK
    }

    /// The options of a codec with the schema `schema`, with the values
    /// `values` read into the options named `keys`; nothing if the schema is
    /// not well formed or a pair fails.
    pub fn newa(schema: &'a Vec<SquashOptionInfo>, keys: &[&str], values: &[&str]) -> (made:
        Option<SquashOptions<'a>>)
        ensures
            made matches Some(options) ==> {
                &&& options.wf()
                &&& options.schema() == schema@
                &&& squash_option_schema_wf(schema@)
                &&& squash_options_parsed_all(
                    schema@,
                    Seq::new(schema@.len(), |i: int| schema@[i].default_value@),
                    Seq::new(keys@.len(), |i: int| keys@[i]@),
                    Seq::new(values@.len(), |i: int| values@[i]@),
                    0,
                ) == (options.values(), SQUASH_OK)
            },
            made is None <==> !squash_option_schema_wf(schema@) || squash_options_parsed_all(
                schema@,
                Seq::new(schema@.len(), |i: int| schema@[i].default_value@),
                Seq::new(keys@.len(), |i: int| keys@[i]@),
                Seq::new(values@.len(), |i: int| values@[i]@),
                0,
            ).1 != SQUASH_OK,
    {
        match SquashOptions::new(schema) {
            Some(options) => {
                let mut options = options;
                proof {
                    assert(options.values() =~= Seq::new(
                        schema@.len(),
                        |i: int| schema@[i].default_value@,
                    ));
                }
                let status: SquashStatus = options.parsea(keys, values);
                if status == SQUASH_OK {
                    Some(options)
                } else {
                    None
                }
            },
            None => None,
        }
    }

    /// The value of the string option at `index`. Of an option that takes
    /// one of a list of strings this is nothing: such an option holds the
    /// integer that the string stands for. Nothing, too, if `index` names no
    /// option that holds a string.
    pub fn get_string_at(&self, index: usize) -> (value: Option<&str>)
        requires
            self.wf(),
        ensures
            match value {
                Some(text) => index < self.schema().len() && self.values()[index as int]
                    == SquashOptionValueView::String(text@),
                None => !(index < self.schema().len() && self.values()[index as int] is String),
            },
    {
        match self.value_at(Some(index)) {
            Some(value) => value.string_value(),
            None => None,
        }
    }

    /// The value of the boolean option at `index`, or false if `index`
    /// names no option that holds a boolean.
    pub fn get_bool_at(&self, index: usize) -> (value: bool)
        requires
            self.wf(),
        ensures
            value == squash_options_bool(self.schema(), self.values(), Some(index as int)),
    {
        match self.value_at(Some(index)) {
            Some(value) => match value.bool_value() {
                Some(flag) => flag,
                None => false,
            },
            None => false,
        }
    }

    /// The value of the integer option at `index`, or 0 if `index` names no
    /// option that holds an integer.
    pub fn get_int_at(&self, index: usize) -> (value: i32)
        requires
            self.wf(),
        ensures
            value == squash_options_int(self.schema(), self.values(), Some(index as int)),
    {
        match self.value_at(Some(index)) {
            Some(value) => match value.int_value() {
                Some(number) => number,
                None => 0,
            },
            None => 0,
        }
    }

    /// The value of the size option at `index`, or 0 if `index` names no
    /// option that holds a size.
    pub fn get_size_at(&self, index: usize) -> (value: usize)
        requires
            self.wf(),
        ensures
            value == squash_options_size(self.schema(), self.values(), Some(index as int)),
    {
        match self.value_at(Some(index)) {
            Some(value) => match value.size_value() {
                Some(size) => size,
                None => 0,
            },
            None => 0,
        }
    }

    /// The value of the string option named `key`; nothing if no option of
    /// that name holds a string.
    pub fn get_string(&self, key: &str) -> (value: Option<&str>)
        requires
            self.wf(),
        ensures
            match value {
                Some(text) => self.index_of(key@) matches Some(i) && self.values()[i]
                    == SquashOptionValueView::String(text@),
                None => !(self.index_of(key@) matches Some(i) && self.values()[i] is String),
            },
    {
        let index: Option<usize> = self.find(key);
        match self.value_at(index) {
            Some(value) => value.string_value(),
            None => None,
        }
    }

    /// The value of the boolean option named `key`, or false if no option of
    /// that name holds a boolean.
    pub fn get_bool(&self, key: &str) -> (value: bool)
        requires
            self.wf(),
        ensures
            value == squash_options_bool(self.schema(), self.values(), self.index_of(key@)),
    {
        let index: Option<usize> = self.find(key);
        match self.value_at(index) {
            Some(value) => match value.bool_value() {
                Some(flag) => flag,
                None => false,
            },
            None => false,
        }
    }

    /// The value of the integer option named `key`, or 0 if no option of
    /// that name holds an integer.
    pub fn get_int(&self, key: &str) -> (value: i32)
        requires
            self.wf(),
        ensures
            value == squash_options_int(self.schema(), self.values(), self.index_of(key@)),
    {
        let index: Option<usize> = self.find(key);
        match self.value_at(index) {
            Some(value) => match value.int_value() {
                Some(number) => number,
                None => 0,
            },
            None => 0,
        }
    }

    /// The value of the size option named `key`, or 0 if no option of that
    /// name holds a size.
    pub fn get_size(&self, key: &str) -> (value: usize)
        requires
            self.wf(),
        ensures
            value == squash_options_size(self.schema(), self.values(), self.index_of(key@)),
    {
        let index: Option<usize> = self.find(key);
        match self.value_at(index) {
            Some(value) => match value.size_value() {
                Some(size) => size,
                None => 0,
            },
            None => 0,
        }
    }
}

/// The boolean that the option at `index` holds, or false.
pub open spec fn squash_options_bool(
    schema: Seq<SquashOptionInfo>,
    values: Seq<SquashOptionValueView>,
    index: Option<int>,
) -> bool {
    match index {
        Some(i) => if 0 <= i < schema.len() {
            match values[i] {
                SquashOptionValueView::Bool(flag) => flag,
                _ => false,
            }
        } else {
            false
        },
        None => false,
    }
}

/// The integer that the option at `index` holds, or 0.
pub open spec fn squash_options_int(
    schema: Seq<SquashOptionInfo>,
    values: Seq<SquashOptionValueView>,
    index: Option<int>,
) -> i32 {
    match index {
        Some(i) => if 0 <= i < schema.len() {
            match values[i] {
                SquashOptionValueView::Int(number) => number,
                _ => 0,
            }
        } else {
            0
        },
        None => 0,
    }
}

/// The size that the option at `index` holds, or 0.
pub open spec fn squash_options_size(
    schema: Seq<SquashOptionInfo>,
    values: Seq<SquashOptionValueView>,
    index: Option<int>,
) -> usize {
    match index {
        Some(i) => if 0 <= i < schema.len() {
            match values[i] {
                SquashOptionValueView::Size(size) => size,
                _ => 0,
            }
        } else {
            0
        },
        None => 0,
    }
}

} // verus!
