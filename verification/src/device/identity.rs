//! Device identity: the stable device id and the device taxonomy.
use vstd::prelude::*;
use vstd::string::StringSliceAdditionalSpecFns;

verus! {

/// The maximum length of a `DeviceId`, in characters.
pub const DEVICE_ID_MAX_LEN: usize = 64;

/// A device identifier: a non-empty string of at most `DEVICE_ID_MAX_LEN`
/// characters.
#[derive(Debug, Hash, PartialOrd, Ord)]
pub struct DeviceId(String);

impl View for DeviceId {
    type V = Seq<char>;

    closed spec fn view(&self) -> Seq<char> {
        self.0@
    }
}

impl DeviceId {
    /// Creates a `DeviceId`; `None` when `value` is empty or longer than
    /// `DEVICE_ID_MAX_LEN` characters.
    pub fn new(value: &str) -> (r: Option<DeviceId>)
        ensures
            r is Some <==> (value@.len() > 0 && value@.len() <= DEVICE_ID_MAX_LEN),
            r matches Some(id) ==> id@ == value@,
    {
        let n = value.unicode_len();
        if n == 0 || n > DEVICE_ID_MAX_LEN {
            return None;
        }
        Some(DeviceId(value.to_string()))
    }

    /// The inner string.
    pub fn as_str(&self) -> (r: &str)
        ensures
            r@ == self@,
    {
        self.0.as_str()
    }
}

impl Clone for DeviceId {
    fn clone(&self) -> (r: Self)
        ensures
            r@ == self@,
    {
        DeviceId(self.0.clone())
    }
}

impl PartialEq for DeviceId {
    fn eq(&self, other: &Self) -> (r: bool) {
        self.0 == other.0
    }
}

impl vstd::std_specs::cmp::PartialEqSpecImpl for DeviceId {
    open spec fn obeys_eq_spec() -> bool {
        true
    }

    open spec fn eq_spec(&self, other: &DeviceId) -> bool {
        self@ == other@
    }
}

impl Eq for DeviceId {}

/// Equality of device ids by their strings.
pub fn device_id_eq(a: &DeviceId, b: &DeviceId) -> (r: bool)
    ensures
        r == (a@ == b@),
{
    a == b
}

/// The class of a device.
#[derive(Debug, Clone, Copy, PartialEq, Eq, Hash, PartialOrd, Ord, Structural)]
pub enum DeviceClass {
    Phone,
    Tablet,
    Laptop,
    Desktop,
    Iot,
    Server,
    External,
    Other,
}

/// The kebab-case name of each device class.
pub open spec fn spec_device_class_name(c: DeviceClass) -> Seq<char> {
    match c {
        DeviceClass::Phone => "phone"@,
        DeviceClass::Tablet => "tablet"@,
        DeviceClass::Laptop => "laptop"@,
        DeviceClass::Desktop => "desktop"@,
        DeviceClass::Iot => "iot"@,
        DeviceClass::Server => "server"@,
        DeviceClass::External => "external"@,
        DeviceClass::Other => "other"@,
    }
}

impl DeviceClass {
    /// The canonical kebab-case name.
    pub fn as_str(&self) -> (r: &'static str)
        ensures
            r@ == spec_device_class_name(*self),
    {
        match self {
            DeviceClass::Phone => "phone",
            DeviceClass::Tablet => "tablet",
            DeviceClass::Laptop => "laptop",
            DeviceClass::Desktop => "desktop",
            DeviceClass::Iot => "iot",
            DeviceClass::Server => "server",
            DeviceClass::External => "external",
            DeviceClass::Other => "other",
        }
    }

    /// Phones, tablets and laptops are battery powered.
    pub fn is_battery_powered(&self) -> (r: bool)
        ensures
            r == (*self == DeviceClass::Phone || *self == DeviceClass::Tablet || *self
                == DeviceClass::Laptop),
    {
        matches!(self, DeviceClass::Phone | DeviceClass::Tablet | DeviceClass::Laptop)
    }

    /// Phones, tablets, laptops and desktops have a primary user UI.
    pub fn has_user_ui(&self) -> (r: bool)
        ensures
            r == (*self == DeviceClass::Phone || *self == DeviceClass::Tablet || *self
                == DeviceClass::Laptop || *self == DeviceClass::Desktop),
    {
        matches!(
            self,
            DeviceClass::Phone | DeviceClass::Tablet | DeviceClass::Laptop | DeviceClass::Desktop
        )
    }
}

/// Every battery-powered class has a user UI.
pub proof fn law_battery_powered_has_ui(c: DeviceClass)
    ensures
        (c == DeviceClass::Phone || c == DeviceClass::Tablet || c == DeviceClass::Laptop) ==> (c
            == DeviceClass::Phone || c == DeviceClass::Tablet || c == DeviceClass::Laptop || c
            == DeviceClass::Desktop),
{
}

} // verus!
