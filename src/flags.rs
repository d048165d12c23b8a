use vstd::prelude::*;

verus! {

/// The individual bits a shape can carry.
#[derive(PartialEq, Eq, Structural, Clone, Copy, Debug)]
pub enum Flag {
    Enabled,
}

/// Per-shape flag set, packed into a `u32` for the GPU.
#[derive(Clone, Copy, Debug)]
pub struct Flags {
    enabled: bool,
}

impl Flags {
    /// Whether the `Enabled` bit is set.
    pub closed spec fn is_enabled(&self) -> bool {
        self.enabled
    }

    /// Value of one flag.
    pub open spec fn flag(&self, flag: Flag) -> bool {
        match flag {
            Flag::Enabled => self.is_enabled(),
        }
    }

    /// The packed form: bit 0 is `Enabled`, every other bit is clear.
    pub open spec fn bits(&self) -> u32 {
        if self.is_enabled() { 1u32 } else { 0u32 }
    }

    /// These flags with `flag` set to `value` and every other flag kept.
    pub closed spec fn with_flag(self, flag: Flag, value: bool) -> Flags {
        match flag {
            Flag::Enabled => Flags { enabled: value },
        }
    }

    /// Setting a flag and reading it back gives the value set; the other
    /// flags keep theirs.
    pub proof fn lemma_with_flag(self, flag: Flag, value: bool)
        ensures
            self.with_flag(flag, value).flag(flag) == value,
            forall|f: Flag| f != flag ==> #[trigger] self.with_flag(flag, value).flag(f) == self.flag(f),
    {
    }

    /// Every flag set.
    pub fn all() -> (r: Self)
        ensures
            r.is_enabled(),
    {
        Flags { enabled: true }
    }

    /// Every flag clear.
    pub fn none() -> (r: Self)
        ensures
            !r.is_enabled(),
    {
        Flags { enabled: false }
    }

    /// The flags a freshly created shape starts with.
    pub fn enabled() -> (r: Self)
        ensures
            r.is_enabled(),
    {
        Flags { enabled: true }
    }

    pub fn as_u32(&self) -> (r: u32)
        ensures
            r == self.bits(),
    {
        let mut flags: u32 = 0;
        if self.enabled {
            flags = flags | 1u32;
        }
        assert(0u32 | 1u32 == 1u32) by (bit_vector);
        flags
    }

    pub fn get_flag(&self, flag: Flag) -> (r: bool)
        ensures
            r == self.flag(flag),
    {
        match flag {
            Flag::Enabled => self.enabled,
        }
    }

    pub fn set_flag(&mut self, flag: Flag, value: bool)
        ensures
            *final(self) == old(self).with_flag(flag, value),
            final(self).flag(flag) == value,
            forall|f: Flag| f != flag ==> final(self).flag(f) == old(self).flag(f),
    {
        match flag {
            Flag::Enabled => self.enabled = value,
        }
    }

    /// Copies every flag of `other`.
    pub fn set(&mut self, other: Flags)
        ensures
            *final(self) == other,
    {
        self.enabled = other.enabled;
    }
}

} // verus!
