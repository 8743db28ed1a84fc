//! The closed set of playback properties that the player reads, writes and
//! observes, with their wire names, wire formats and native representations.

use vstd::prelude::*;

verus! {

/// `MPV_FORMAT_STRING`.
pub const MPV_FORMAT_STRING: u32 = 1;

/// `MPV_FORMAT_FLAG`.
pub const MPV_FORMAT_FLAG: u32 = 3;

/// `MPV_FORMAT_DOUBLE`.
pub const MPV_FORMAT_DOUBLE: u32 = 5;

/// The wire formats that the properties of this module use.
#[derive(Debug, Clone, Copy, PartialEq, Eq, Structural)]
pub enum Format {
    Str,
    Flag,
    Double,
}

impl Format {
    pub open spec fn spec_code(self) -> u32 {
        match self {
            Format::Str => MPV_FORMAT_STRING,
            Format::Flag => MPV_FORMAT_FLAG,
            Format::Double => MPV_FORMAT_DOUBLE,
        }
    }

    /// The `mpv_format` number that libmpv expects for this format.
    pub fn code(&self) -> (r: u32)
        ensures
            r == self.spec_code(),
    {
        match self {
            Format::Str => MPV_FORMAT_STRING,
            Format::Flag => MPV_FORMAT_FLAG,
            Format::Double => MPV_FORMAT_DOUBLE,
        }
    }
}

/// A property value in the representation that libmpv reads and writes.
#[derive(Debug, Clone, PartialEq)]
pub enum NativeValue {
    /// A C `double`, held as its IEEE-754 bit pattern.
    Double(u64),
    /// A C `int` flag: zero is false, anything else is true.
    Flag(i32),
    /// The text of a C string.
    Str(String),
}

impl NativeValue {
    pub open spec fn spec_format(self) -> Format {
        match self {
            NativeValue::Double(_) => Format::Double,
            NativeValue::Flag(_) => Format::Flag,
            NativeValue::Str(_) => Format::Str,
        }
    }

    /// The wire format this value is written in.
    pub fn format(&self) -> (r: Format)
        ensures
            r == self.spec_format(),
    {
        match self {
            NativeValue::Double(_) => Format::Double,
            NativeValue::Flag(_) => Format::Flag,
            NativeValue::Str(_) => Format::Str,
        }
    }
}

/// Total duration of the current file in seconds, as the bit pattern of an
/// `f64`.
#[derive(Debug, Clone, Copy, PartialEq, Eq, Structural)]
pub struct Duration(pub u64);

/// Playback position in seconds, as the bit pattern of an `f64`.
#[derive(Debug, Clone, Copy, PartialEq, Eq, Structural)]
pub struct TimePos(pub u64);

/// Whether playback is paused.
#[derive(Debug, Clone, Copy, PartialEq, Eq, Structural)]
pub struct Pause(pub bool);

/// Audio output volume, as the bit pattern of an `f64`. Until a file with an
/// audio track is loaded, libmpv reports this property as unavailable.
#[derive(Debug, Clone, Copy, PartialEq, Eq, Structural)]
pub struct AoVolume(pub u64);

/// Whether audio output is muted.
#[derive(Debug, Clone, Copy, PartialEq, Eq, Structural)]
pub struct AoMute(pub bool);

/// Name of the file being played.
#[derive(Debug, Clone, PartialEq, Eq)]
pub struct Filename(pub String);

/// A property that can be read from libmpv: its wire name, its wire format,
/// and how a native value of that format becomes a typed value.
pub trait ReadProperty: Sized {
    spec fn spec_name() -> Seq<char>;

    spec fn spec_format() -> Format;

    spec fn spec_from_repr(val: NativeValue) -> Self;

    /// The wire name of the property.
    fn name() -> (r: String)
        ensures
            r@ == Self::spec_name(),
    ;

    /// The wire format the property is read and written in.
    fn format() -> (r: Format)
        ensures
            r == Self::spec_format(),
    ;

    /// Decodes a native value of this property's format.
    fn from_repr(val: &NativeValue) -> (r: Self)
        requires
            val.spec_format() == Self::spec_format(),
        ensures
            r == Self::spec_from_repr(*val),
    ;
}

/// A property that can also be written to libmpv.
pub trait WriteProperty: ReadProperty {
    spec fn spec_to_repr(&self) -> NativeValue;

    /// Encodes the value in this property's native representation.
    fn to_repr(&self) -> (r: NativeValue)
        ensures
            r == self.spec_to_repr(),
            r.spec_format() == Self::spec_format(),
    ;

    /// Decoding what `to_repr` produced gives the value back.
    proof fn lemma_repr_round_trip(&self)
        ensures
            self.spec_to_repr().spec_format() == Self::spec_format(),
            Self::spec_from_repr(self.spec_to_repr()) == *self,
    ;
}

/// Reads a double-format native value.
pub open spec fn double_bits(val: NativeValue) -> u64 {
    match val {
        NativeValue::Double(b) => b,
        _ => 0,
    }
}

/// Reads a flag-format native value as a boolean.
pub open spec fn flag_value(val: NativeValue) -> bool {
    match val {
        NativeValue::Flag(i) => i != 0,
        _ => false,
    }
}

/// Reads a string-format native value.
pub open spec fn str_value(val: NativeValue) -> Seq<char> {
    match val {
        NativeValue::Str(s) => s@,
        _ => Seq::empty(),
    }
}

/// The native flag that libmpv reads as `b`.
pub open spec fn flag_of(b: bool) -> i32 {
    if b {
        1
    } else {
        0
    }
}

fn read_double(val: &NativeValue) -> (r: u64)
    requires
        val.spec_format() == Format::Double,
    ensures
        r == double_bits(*val),
{
    match val {
        NativeValue::Double(b) => *b,
        _ => 0,
    }
}

fn read_flag(val: &NativeValue) -> (r: bool)
    requires
        val.spec_format() == Format::Flag,
    ensures
        r == flag_value(*val),
{
    match val {
        NativeValue::Flag(i) => *i != 0,
        _ => false,
    }
}

fn write_flag(b: bool) -> (r: NativeValue)
    ensures
        r == NativeValue::Flag(flag_of(b)),
{
    if b {
        NativeValue::Flag(1)
    } else {
        NativeValue::Flag(0)
    }
}

impl ReadProperty for Duration {
    open spec fn spec_name() -> Seq<char> {
        "duration"@
    }

    open spec fn spec_format() -> Format {
        Format::Double
    }

    open spec fn spec_from_repr(val: NativeValue) -> Self {
        Duration(double_bits(val))
    }

    fn name() -> (r: String) {
        String::from_str("duration")
    }

    fn format() -> (r: Format) {
        Format::Double
    }

    fn from_repr(val: &NativeValue) -> (r: Self) {
        Duration(read_double(val))
    }
}

impl WriteProperty for Duration {
    open spec fn spec_to_repr(&self) -> NativeValue {
        NativeValue::Double(self.0)
    }

    fn to_repr(&self) -> (r: NativeValue) {
        NativeValue::Double(self.0)
    }

    proof fn lemma_repr_round_trip(&self) {
    }
}


impl ReadProperty for TimePos {
    open spec fn spec_name() -> Seq<char> {
        "time-pos"@
    }

    open spec fn spec_format() -> Format {
        Format::Double
    }

    open spec fn spec_from_repr(val: NativeValue) -> Self {
        TimePos(double_bits(val))
    }

    fn name() -> (r: String) {
        String::from_str("time-pos")
    }

    fn format() -> (r: Format) {
        Format::Double
    }

    fn from_repr(val: &NativeValue) -> (r: Self) {
        TimePos(read_double(val))
    }
}

impl WriteProperty for TimePos {
    open spec fn spec_to_repr(&self) -> NativeValue {
        NativeValue::Double(self.0)
    }

    fn to_repr(&self) -> (r: NativeValue) {
        NativeValue::Double(self.0)
    }

    proof fn lemma_repr_round_trip(&self) {
    }
}

impl ReadProperty for Pause {
    open spec fn spec_name() -> Seq<char> {
        "pause"@
    }

    open spec fn spec_format() -> Format {
        Format::Flag
    }

    open spec fn spec_from_repr(val: NativeValue) -> Self {
        Pause(flag_value(val))
    }

    fn name() -> (r: String) {
        String::from_str("pause")
    }

    fn format() -> (r: Format) {
        Format::Flag
    }

    fn from_repr(val: &NativeValue) -> (r: Self) {
        Pause(read_flag(val))
    }
}

impl WriteProperty for Pause {
    open spec fn spec_to_repr(&self) -> NativeValue {
        NativeValue::Flag(flag_of(self.0))
    }

    fn to_repr(&self) -> (r: NativeValue) {
        write_flag(self.0)
    }

    proof fn lemma_repr_round_trip(&self) {
    }
}

impl ReadProperty for AoVolume {
    open spec fn spec_name() -> Seq<char> {
        "ao-volume"@
    }

    open spec fn spec_format() -> Format {
        Format::Double
    }

    open spec fn spec_from_repr(val: NativeValue) -> Self {
        AoVolume(double_bits(val))
    }

    fn name() -> (r: String) {
        String::from_str("ao-volume")
    }

    fn format() -> (r: Format) {
        Format::Double
    }

    fn from_repr(val: &NativeValue) -> (r: Self) {
        AoVolume(read_double(val))
    }
}

impl WriteProperty for AoVolume {
    open spec fn spec_to_repr(&self) -> NativeValue {
        NativeValue::Double(self.0)
    }

    fn to_repr(&self) -> (r: NativeValue) {
        NativeValue::Double(self.0)
    }

    proof fn lemma_repr_round_trip(&self) {
    }
}

impl ReadProperty for AoMute {
    open spec fn spec_name() -> Seq<char> {
        "ao-mute"@
    }

    open spec fn spec_format() -> Format {
        Format::Flag
    }

    open spec fn spec_from_repr(val: NativeValue) -> Self {
        AoMute(flag_value(val))
    }

    fn name() -> (r: String) {
        String::from_str("ao-mute")
    }

    fn format() -> (r: Format) {
        Format::Flag
    }

    fn from_repr(val: &NativeValue) -> (r: Self) {
        AoMute(read_flag(val))
    }
}

impl WriteProperty for AoMute {
    open spec fn spec_to_repr(&self) -> NativeValue {
        NativeValue::Flag(flag_of(self.0))
    }

    fn to_repr(&self) -> (r: NativeValue) {
        write_flag(self.0)
    }

    proof fn lemma_repr_round_trip(&self) {
    }
}

impl ReadProperty for Filename {
    open spec fn spec_name() -> Seq<char> {
        "filename"@
    }

    open spec fn spec_format() -> Format {
        Format::Str
    }

    open spec fn spec_from_repr(val: NativeValue) -> Self {
        match val {
            NativeValue::Str(s) => Filename(s),
            _ => Filename(arbitrary()),
        }
    }

    fn name() -> (r: String) {
        String::from_str("filename")
    }

    fn format() -> (r: Format) {
        Format::Str
    }

    fn from_repr(val: &NativeValue) -> (r: Self) {
        match val {
            NativeValue::Str(s) => Filename(s.clone()),
            _ => Filename(String::new()),
        }
    }
}

impl WriteProperty for Filename {
    open spec fn spec_to_repr(&self) -> NativeValue {
        NativeValue::Str(self.0)
    }

    fn to_repr(&self) -> (r: NativeValue) {
        NativeValue::Str(self.0.clone())
    }

    proof fn lemma_repr_round_trip(&self) {
    }
}

/// A decoded value of one of the properties that the player observes.
#[derive(Debug, Clone, PartialEq)]
pub enum Property {
    Duration(Duration),
    TimePos(TimePos),
    Pause(Pause),
    AoVolume(AoVolume),
    AoMute(AoMute),
    Filename(Filename),
}

/// Why a property payload could not be decoded.
#[derive(Debug, Clone, Copy, PartialEq, Eq, Structural)]
pub enum ConvertError {
    /// The name is known, but the payload is not in that property's format.
    TypeError,
    /// The name is not one of the known properties.
    Invalid,
}

/// A property payload as libmpv delivers it in a change event or a read:
/// the property's name and the value it points to.
#[derive(Debug, Clone, PartialEq)]
pub struct RawProperty {
    pub name: String,
    /// The value, or `None` where the payload's format is none of string,
    /// flag and double (for instance `MPV_FORMAT_NONE` while the property is
    /// unavailable).
    pub value: Option<NativeValue>,
}

/// The typed value of `P` in a payload, if the payload has `P`'s format.
pub open spec fn spec_read<P: ReadProperty>(value: Option<NativeValue>) -> Option<P> {
    match value {
        Some(v) => if v.spec_format() == P::spec_format() {
            Some(P::spec_from_repr(v))
        } else {
            None
        },
        None => None,
    }
}

/// What a payload decodes to: the property its name selects, read in that
/// property's format.
pub open spec fn spec_from_raw(p: RawProperty) -> Result<Property, ConvertError> {
    let n = p.name@;
    if n == Duration::spec_name() {
        match spec_read::<Duration>(p.value) {
            Some(x) => Ok(Property::Duration(x)),
            None => Err(ConvertError::TypeError),
        }
    } else if n == TimePos::spec_name() {
        match spec_read::<TimePos>(p.value) {
            Some(x) => Ok(Property::TimePos(x)),
            None => Err(ConvertError::TypeError),
        }
    } else if n == Pause::spec_name() {
        match spec_read::<Pause>(p.value) {
            Some(x) => Ok(Property::Pause(x)),
            None => Err(ConvertError::TypeError),
        }
    } else if n == AoVolume::spec_name() {
        match spec_read::<AoVolume>(p.value) {
            Some(x) => Ok(Property::AoVolume(x)),
            None => Err(ConvertError::TypeError),
        }
    } else if n == AoMute::spec_name() {
        match spec_read::<AoMute>(p.value) {
            Some(x) => Ok(Property::AoMute(x)),
            None => Err(ConvertError::TypeError),
        }
    } else if n == Filename::spec_name() {
        match spec_read::<Filename>(p.value) {
            Some(x) => Ok(Property::Filename(x)),
            None => Err(ConvertError::TypeError),
        }
    } else {
        Err(ConvertError::Invalid)
    }
}

fn read<P: ReadProperty>(value: &Option<NativeValue>) -> (r: Option<P>)
    ensures
        r == spec_read::<P>(*value),
{
    match value {
        Some(v) => if v.format() == P::format() {
            Some(P::from_repr(v))
        } else {
            None
        },
        None => None,
    }
}

impl Property {
    /// The wire name of the property this value belongs to.
    pub open spec fn spec_name(self) -> Seq<char> {
        match self {
            Property::Duration(_) => Duration::spec_name(),
            Property::TimePos(_) => TimePos::spec_name(),
            Property::Pause(_) => Pause::spec_name(),
            Property::AoVolume(_) => AoVolume::spec_name(),
            Property::AoMute(_) => AoMute::spec_name(),
            Property::Filename(_) => Filename::spec_name(),
        }
    }

    /// The native representation of this value.
    pub open spec fn spec_value(self) -> NativeValue {
        match self {
            Property::Duration(x) => x.spec_to_repr(),
            Property::TimePos(x) => x.spec_to_repr(),
            Property::Pause(x) => x.spec_to_repr(),
            Property::AoVolume(x) => x.spec_to_repr(),
            Property::AoMute(x) => x.spec_to_repr(),
            Property::Filename(x) => x.spec_to_repr(),
        }
    }

    /// Encodes the value as the payload libmpv would deliver for it.
    pub fn to_raw(&self) -> (r: RawProperty)
        ensures
            r.name@ == self.spec_name(),
            r.value == Some(self.spec_value()),
    {
        match self {
            Property::Duration(x) => RawProperty { name: Duration::name(), value: Some(x.to_repr()) },
            Property::TimePos(x) => RawProperty { name: TimePos::name(), value: Some(x.to_repr()) },
            Property::Pause(x) => RawProperty { name: Pause::name(), value: Some(x.to_repr()) },
            Property::AoVolume(x) => RawProperty { name: AoVolume::name(), value: Some(x.to_repr()) },
            Property::AoMute(x) => RawProperty { name: AoMute::name(), value: Some(x.to_repr()) },
            Property::Filename(x) => RawProperty { name: Filename::name(), value: Some(x.to_repr()) },
        }
    }

    /// Decodes a property payload. An unknown name is `Invalid`; a known
    /// name whose payload has another format is a `TypeError`.
    pub fn from_raw(prop: &RawProperty) -> (r: Result<Property, ConvertError>)
        ensures
            r == spec_from_raw(*prop),
    {
        let name = &prop.name;
        if *name == Duration::name() {
            match read::<Duration>(&prop.value) {
                Some(x) => Ok(Property::Duration(x)),
                None => Err(ConvertError::TypeError),
            }
        } else if *name == TimePos::name() {
            match read::<TimePos>(&prop.value) {
                Some(x) => Ok(Property::TimePos(x)),
                None => Err(ConvertError::TypeError),
            }
        } else if *name == Pause::name() {
            match read::<Pause>(&prop.value) {
                Some(x) => Ok(Property::Pause(x)),
                None => Err(ConvertError::TypeError),
            }
        } else if *name == AoVolume::name() {
            match read::<AoVolume>(&prop.value) {
                Some(x) => Ok(Property::AoVolume(x)),
                None => Err(ConvertError::TypeError),
            }
        } else if *name == AoMute::name() {
            match read::<AoMute>(&prop.value) {
                Some(x) => Ok(Property::AoMute(x)),
                None => Err(ConvertError::TypeError),
            }
        } else if *name == Filename::name() {
            match read::<Filename>(&prop.value) {
                Some(x) => Ok(Property::Filename(x)),
                None => Err(ConvertError::TypeError),
            }
        } else {
            Err(ConvertError::Invalid)
        }
    }
}

/// The six wire names are pairwise different.
pub proof fn lemma_names_distinct()
    ensures
        Duration::spec_name() != TimePos::spec_name(),
        Duration::spec_name() != Pause::spec_name(),
        Duration::spec_name() != AoVolume::spec_name(),
        Duration::spec_name() != AoMute::spec_name(),
        Duration::spec_name() != Filename::spec_name(),
        TimePos::spec_name() != Pause::spec_name(),
        TimePos::spec_name() != AoVolume::spec_name(),
        TimePos::spec_name() != AoMute::spec_name(),
        TimePos::spec_name() != Filename::spec_name(),
        Pause::spec_name() != AoVolume::spec_name(),
        Pause::spec_name() != AoMute::spec_name(),
        Pause::spec_name() != Filename::spec_name(),
        AoVolume::spec_name() != AoMute::spec_name(),
        AoVolume::spec_name() != Filename::spec_name(),
        AoMute::spec_name() != Filename::spec_name(),
{
    reveal_strlit("duration");
    reveal_strlit("time-pos");
    reveal_strlit("pause");
    reveal_strlit("ao-volume");
    reveal_strlit("ao-mute");
    reveal_strlit("filename");
    assert(Duration::spec_name()[0] != TimePos::spec_name()[0]);
    assert(Duration::spec_name()[0] != Filename::spec_name()[0]);
    assert(TimePos::spec_name()[0] != Filename::spec_name()[0]);
    assert(AoVolume::spec_name().len() != AoMute::spec_name().len());
}

/// Encoding any property value to its payload and decoding that payload
/// gives the value back.
pub proof fn lemma_property_round_trip(p: Property, raw: RawProperty)
    requires
        raw.name@ == p.spec_name(),
        raw.value == Some(p.spec_value()),
    ensures
        spec_from_raw(raw) == Ok::<Property, ConvertError>(p),
{
    lemma_names_distinct();
    match p {
        Property::Duration(x) => x.lemma_repr_round_trip(),
        Property::TimePos(x) => x.lemma_repr_round_trip(),
        Property::Pause(x) => x.lemma_repr_round_trip(),
        Property::AoVolume(x) => x.lemma_repr_round_trip(),
        Property::AoMute(x) => x.lemma_repr_round_trip(),
        Property::Filename(x) => x.lemma_repr_round_trip(),
    }
}

} // verus!
