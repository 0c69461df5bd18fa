//! Settings of one generation run.

use vstd::prelude::*;
use crate::text::texts;

verus! {

/// Width of the addresses of the target device.
#[derive(Clone, Copy, Debug, PartialEq, Eq, Structural)]
pub enum AddressSize {
    U32,
    U64,
}

impl AddressSize {
    /// The name of the unsigned integer type that holds an address.
    pub open spec fn integer_type_text(self) -> Seq<char> {
        match self {
            AddressSize::U32 => "u32"@,
            AddressSize::U64 => "u64"@,
        }
    }

    /// Returns the name of the unsigned integer type that holds an address.
    pub fn integer_type_name(&self) -> (name: &'static str)
        ensures
            name@ == self.integer_type_text(),
    {
        match self {
            AddressSize::U32 => "u32",
            AddressSize::U64 => "u64",
        }
    }
}

/// What a `GeneratorConfig` says, as mathematical values.
pub struct ConfigSpec {
    /// Width of the addresses of the target device.
    pub address_size: AddressSize,
    /// Names of the peripherals and instances that are not emitted.
    pub ignore: Set<Seq<char>>,
    /// Path of the module that provides the interrupt-free critical section.
    pub arch_crate: Seq<char>,
}

/// Settings of one generation run.
pub struct GeneratorConfig {
    /// Width of the addresses of the target device.
    pub address_size: AddressSize,
    /// Names of the peripherals and instances that are not emitted.
    pub ignore: Vec<String>,
    /// Path of the module that provides the interrupt-free critical section.
    pub arch_crate: String,
}

impl View for GeneratorConfig {
    type V = ConfigSpec;

    open spec fn view(&self) -> ConfigSpec {
        ConfigSpec {
            address_size: self.address_size,
            ignore: texts(self.ignore@).to_set(),
            arch_crate: self.arch_crate@,
        }
    }
}

impl GeneratorConfig {
    /// Replaces the address width.
    pub fn address_size(self, size: AddressSize) -> (config: Self)
        ensures
            config.address_size == size,
            config.ignore == self.ignore,
            config.arch_crate == self.arch_crate,
    {
        GeneratorConfig { address_size: size, ignore: self.ignore, arch_crate: self.arch_crate }
    }

    /// Replaces the names that are not emitted.
    pub fn ignore(self, ignore: Vec<String>) -> (config: Self)
        ensures
            config.address_size == self.address_size,
            config.ignore == ignore,
            config.arch_crate == self.arch_crate,
    {
        GeneratorConfig { address_size: self.address_size, ignore, arch_crate: self.arch_crate }
    }

    /// Replaces the path of the module with the critical-section primitive.
    pub fn arch_crate(self, path: &str) -> (config: Self)
        ensures
            config.address_size == self.address_size,
            config.ignore == self.ignore,
            config.arch_crate@ == path@,
    {
        GeneratorConfig {
            address_size: self.address_size,
            ignore: self.ignore,
            arch_crate: path.to_owned(),
        }
    }

    /// Whether items named `name` are left out.
    pub fn ignores(&self, name: &String) -> (ignored: bool)
        ensures
            ignored == self@.ignore.contains(name@),
    {
        let mut i: usize = 0;
        while i < self.ignore.len()
            invariant
                0 <= i <= self.ignore.len(),
                forall|j: int| 0 <= j < i ==> self.ignore@[j]@ != name@,
            decreases self.ignore.len() - i,
        {
            if self.ignore[i] == *name {
                proof {
                    assert(texts(self.ignore@)[i as int] == name@);
                }
                return true;
            }
            i += 1;
        }
        proof {
            if texts(self.ignore@).to_set().contains(name@) {
                let names = texts(self.ignore@);
                let j = choose|j: int| 0 <= j < names.len() && names[j] == name@;
            }
        }
        false
    }
}

impl Default for GeneratorConfig {
    /// 32-bit addresses, nothing ignored, and the critical section of
    /// `crate::arch`.
    fn default() -> (config: Self)
        ensures
            config.address_size == AddressSize::U32,
            config.ignore@.len() == 0,
            config.arch_crate@ == "crate::arch"@,
    {
        GeneratorConfig {
            address_size: AddressSize::U32,
            ignore: Vec::new(),
            arch_crate: "crate::arch".to_owned(),
        }
    }
}

} // verus!
