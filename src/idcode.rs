use vstd::prelude::*;

verus! {

/// Mask that drops the silicon revision (the top four bits) of an IDCODE.
pub const REVISION_MASK: u32 = 0x0FFF_FFFF;

/// The part of a raw IDCODE that identifies the device, without its revision.
pub open spec fn masked(raw: u32) -> u32 {
    raw & REVISION_MASK
}

/// `c` with ASCII lower-case letters mapped to upper case.
pub open spec fn upper_char(c: char) -> char {
    if 'a' <= c && c <= 'z' {
        ((c as u32) - 32) as char
    } else {
        c
    }
}

/// `s` with ASCII lower-case letters mapped to upper case.
pub open spec fn ascii_upper(s: Seq<char>) -> Seq<char> {
    s.map_values(|c: char| upper_char(c))
}

/// The known device whose masked IDCODE equals the masked part of `raw`, if any.
pub open spec fn resolve(raw: u32) -> Option<X7IDCODE> {
    if exists|d: X7IDCODE| d.spec_code() == masked(raw) {
        Some(choose|d: X7IDCODE| d.spec_code() == masked(raw))
    } else {
        None
    }
}

/// The known device whose canonical name is `name` with ASCII letters in
/// upper case, if any.
pub open spec fn resolve_name(name: Seq<char>) -> Option<X7IDCODE> {
    if exists|d: X7IDCODE| d.spec_name() == ascii_upper(name) {
        Some(choose|d: X7IDCODE| d.spec_name() == ascii_upper(name))
    } else {
        None
    }
}

/// IDCODEs of all 7-series devices.
///
/// IDCODEs are the same between C/A/Q part numbers (e.g. XC7Z030, XA7Z030, XQ7Z030).
/// The revision nibble is left at 0 here.
#[derive(Copy, Clone, Debug, PartialEq, Eq, Structural)]
#[allow(non_camel_case_types)]
pub enum X7IDCODE {
    X7S6,
    X7S15,
    X7S25,
    X7S50,
    X7S75,
    X7S100,
    X7A12T,
    X7A15T,
    X7A25T,
    X7A35T,
    X7A50T,
    X7A75T,
    X7A100T,
    X7A200T,
    X7K70T,
    X7K160T,
    X7K325T,
    X7K355T,
    X7K410T,
    X7K420T,
    X7K480T,
    X7V575T,
    X7VX330T,
    X7VX415T,
    X7VX485T,
    X7VX550T,
    X7VX690T,
    X7VX980T,
    X7VX1140T,
    X7VH580T,
    X7VH870T,
    X7Z007S,
    X7Z012S,
    X7Z014S,
    X7Z010,
    X7Z015,
    X7Z020,
    X7Z030,
    X7Z035,
    X7Z045,
    X7Z100,
}

impl X7IDCODE {
    /// The IDCODE of this device, revision bits clear.
    pub open spec fn spec_code(self) -> u32 {
        match self {
            X7IDCODE::X7S6 => 0x3622093,
            X7IDCODE::X7S15 => 0x3620093,
            X7IDCODE::X7S25 => 0x37C4093,
            X7IDCODE::X7S50 => 0x362F093,
            X7IDCODE::X7S75 => 0x37C8093,
            X7IDCODE::X7S100 => 0x37C7093,
            X7IDCODE::X7A12T => 0x37C3093,
            X7IDCODE::X7A15T => 0x362E093,
            X7IDCODE::X7A25T => 0x37C2093,
            X7IDCODE::X7A35T => 0x362D093,
            X7IDCODE::X7A50T => 0x362C093,
            X7IDCODE::X7A75T => 0x3632093,
            X7IDCODE::X7A100T => 0x3631093,
            X7IDCODE::X7A200T => 0x3636093,
            X7IDCODE::X7K70T => 0x3647093,
            X7IDCODE::X7K160T => 0x364C093,
            X7IDCODE::X7K325T => 0x3651093,
            X7IDCODE::X7K355T => 0x3747093,
            X7IDCODE::X7K410T => 0x3656093,
            X7IDCODE::X7K420T => 0x3752093,
            X7IDCODE::X7K480T => 0x3751093,
            X7IDCODE::X7V575T => 0x3671093,
            X7IDCODE::X7VX330T => 0x3667093,
            X7IDCODE::X7VX415T => 0x3682093,
            X7IDCODE::X7VX485T => 0x3687093,
            X7IDCODE::X7VX550T => 0x3692093,
            X7IDCODE::X7VX690T => 0x3691093,
            X7IDCODE::X7VX980T => 0x3696093,
            X7IDCODE::X7VX1140T => 0x36D5093,
            X7IDCODE::X7VH580T => 0x36D9093,
            X7IDCODE::X7VH870T => 0x36DB093,
            X7IDCODE::X7Z007S => 0x3723093,
            X7IDCODE::X7Z012S => 0x373C093,
            X7IDCODE::X7Z014S => 0x3728093,
            X7IDCODE::X7Z010 => 0x3722093,
            X7IDCODE::X7Z015 => 0x373B093,
            X7IDCODE::X7Z020 => 0x3727093,
            X7IDCODE::X7Z030 => 0x372C093,
            X7IDCODE::X7Z035 => 0x3732093,
            X7IDCODE::X7Z045 => 0x3731093,
            X7IDCODE::X7Z100 => 0x3736093,
        }
    }

    /// The canonical name of this device.
    pub open spec fn spec_name(self) -> Seq<char> {
        match self {
            X7IDCODE::X7S6 => "X7S6"@,
            X7IDCODE::X7S15 => "X7S15"@,
            X7IDCODE::X7S25 => "X7S25"@,
            X7IDCODE::X7S50 => "X7S50"@,
            X7IDCODE::X7S75 => "X7S75"@,
            X7IDCODE::X7S100 => "X7S100"@,
            X7IDCODE::X7A12T => "X7A12T"@,
            X7IDCODE::X7A15T => "X7A15T"@,
            X7IDCODE::X7A25T => "X7A25T"@,
            X7IDCODE::X7A35T => "X7A35T"@,
            X7IDCODE::X7A50T => "X7A50T"@,
            X7IDCODE::X7A75T => "X7A75T"@,
            X7IDCODE::X7A100T => "X7A100T"@,
            X7IDCODE::X7A200T => "X7A200T"@,
            X7IDCODE::X7K70T => "X7K70T"@,
            X7IDCODE::X7K160T => "X7K160T"@,
            X7IDCODE::X7K325T => "X7K325T"@,
            X7IDCODE::X7K355T => "X7K355T"@,
            X7IDCODE::X7K410T => "X7K410T"@,
            X7IDCODE::X7K420T => "X7K420T"@,
            X7IDCODE::X7K480T => "X7K480T"@,
            X7IDCODE::X7V575T => "X7V575T"@,
            X7IDCODE::X7VX330T => "X7VX330T"@,
            X7IDCODE::X7VX415T => "X7VX415T"@,
            X7IDCODE::X7VX485T => "X7VX485T"@,
            X7IDCODE::X7VX550T => "X7VX550T"@,
            X7IDCODE::X7VX690T => "X7VX690T"@,
            X7IDCODE::X7VX980T => "X7VX980T"@,
            X7IDCODE::X7VX1140T => "X7VX1140T"@,
            X7IDCODE::X7VH580T => "X7VH580T"@,
            X7IDCODE::X7VH870T => "X7VH870T"@,
            X7IDCODE::X7Z007S => "X7Z007S"@,
            X7IDCODE::X7Z012S => "X7Z012S"@,
            X7IDCODE::X7Z014S => "X7Z014S"@,
            X7IDCODE::X7Z010 => "X7Z010"@,
            X7IDCODE::X7Z015 => "X7Z015"@,
            X7IDCODE::X7Z020 => "X7Z020"@,
            X7IDCODE::X7Z030 => "X7Z030"@,
            X7IDCODE::X7Z035 => "X7Z035"@,
            X7IDCODE::X7Z045 => "X7Z045"@,
            X7IDCODE::X7Z100 => "X7Z100"@,
        }
    }

    /// The IDCODE of this device, revision bits clear.
    pub fn code(&self) -> (r: u32)
        ensures
            r == self.spec_code(),
    {
        match self {
            X7IDCODE::X7S6 => 0x3622093,
            X7IDCODE::X7S15 => 0x3620093,
            X7IDCODE::X7S25 => 0x37C4093,
            X7IDCODE::X7S50 => 0x362F093,
            X7IDCODE::X7S75 => 0x37C8093,
            X7IDCODE::X7S100 => 0x37C7093,
            X7IDCODE::X7A12T => 0x37C3093,
            X7IDCODE::X7A15T => 0x362E093,
            X7IDCODE::X7A25T => 0x37C2093,
            X7IDCODE::X7A35T => 0x362D093,
            X7IDCODE::X7A50T => 0x362C093,
            X7IDCODE::X7A75T => 0x3632093,
            X7IDCODE::X7A100T => 0x3631093,
            X7IDCODE::X7A200T => 0x3636093,
            X7IDCODE::X7K70T => 0x3647093,
            X7IDCODE::X7K160T => 0x364C093,
            X7IDCODE::X7K325T => 0x3651093,
            X7IDCODE::X7K355T => 0x3747093,
            X7IDCODE::X7K410T => 0x3656093,
            X7IDCODE::X7K420T => 0x3752093,
            X7IDCODE::X7K480T => 0x3751093,
            X7IDCODE::X7V575T => 0x3671093,
            X7IDCODE::X7VX330T => 0x3667093,
            X7IDCODE::X7VX415T => 0x3682093,
            X7IDCODE::X7VX485T => 0x3687093,
            X7IDCODE::X7VX550T => 0x3692093,
            X7IDCODE::X7VX690T => 0x3691093,
            X7IDCODE::X7VX980T => 0x3696093,
            X7IDCODE::X7VX1140T => 0x36D5093,
            X7IDCODE::X7VH580T => 0x36D9093,
            X7IDCODE::X7VH870T => 0x36DB093,
            X7IDCODE::X7Z007S => 0x3723093,
            X7IDCODE::X7Z012S => 0x373C093,
            X7IDCODE::X7Z014S => 0x3728093,
            X7IDCODE::X7Z010 => 0x3722093,
            X7IDCODE::X7Z015 => 0x373B093,
            X7IDCODE::X7Z020 => 0x3727093,
            X7IDCODE::X7Z030 => 0x372C093,
            X7IDCODE::X7Z035 => 0x3732093,
            X7IDCODE::X7Z045 => 0x3731093,
            X7IDCODE::X7Z100 => 0x3736093,
        }
    }

    /// The device with masked IDCODE `m`, if it is known.
    fn from_masked(m: u32) -> (r: Option<Self>)
        ensures
            r matches Some(d) ==> d.spec_code() == m,
            r is None ==> forall|d: X7IDCODE| d.spec_code() != m,
    {
        match m {
            0x3622093 => Some(X7IDCODE::X7S6),
            0x3620093 => Some(X7IDCODE::X7S15),
            0x37C4093 => Some(X7IDCODE::X7S25),
            0x362F093 => Some(X7IDCODE::X7S50),
            0x37C8093 => Some(X7IDCODE::X7S75),
            0x37C7093 => Some(X7IDCODE::X7S100),
            0x37C3093 => Some(X7IDCODE::X7A12T),
            0x362E093 => Some(X7IDCODE::X7A15T),
            0x37C2093 => Some(X7IDCODE::X7A25T),
            0x362D093 => Some(X7IDCODE::X7A35T),
            0x362C093 => Some(X7IDCODE::X7A50T),
            0x3632093 => Some(X7IDCODE::X7A75T),
            0x3631093 => Some(X7IDCODE::X7A100T),
            0x3636093 => Some(X7IDCODE::X7A200T),
            0x3647093 => Some(X7IDCODE::X7K70T),
            0x364C093 => Some(X7IDCODE::X7K160T),
            0x3651093 => Some(X7IDCODE::X7K325T),
            0x3747093 => Some(X7IDCODE::X7K355T),
            0x3656093 => Some(X7IDCODE::X7K410T),
            0x3752093 => Some(X7IDCODE::X7K420T),
            0x3751093 => Some(X7IDCODE::X7K480T),
            0x3671093 => Some(X7IDCODE::X7V575T),
            0x3667093 => Some(X7IDCODE::X7VX330T),
            0x3682093 => Some(X7IDCODE::X7VX415T),
            0x3687093 => Some(X7IDCODE::X7VX485T),
            0x3692093 => Some(X7IDCODE::X7VX550T),
            0x3691093 => Some(X7IDCODE::X7VX690T),
            0x3696093 => Some(X7IDCODE::X7VX980T),
            0x36D5093 => Some(X7IDCODE::X7VX1140T),
            0x36D9093 => Some(X7IDCODE::X7VH580T),
            0x36DB093 => Some(X7IDCODE::X7VH870T),
            0x3723093 => Some(X7IDCODE::X7Z007S),
            0x373C093 => Some(X7IDCODE::X7Z012S),
            0x3728093 => Some(X7IDCODE::X7Z014S),
            0x3722093 => Some(X7IDCODE::X7Z010),
            0x373B093 => Some(X7IDCODE::X7Z015),
            0x3727093 => Some(X7IDCODE::X7Z020),
            0x372C093 => Some(X7IDCODE::X7Z030),
            0x3732093 => Some(X7IDCODE::X7Z035),
            0x3731093 => Some(X7IDCODE::X7Z045),
            0x3736093 => Some(X7IDCODE::X7Z100),
            _ => None,
        }
    }

    /// Look up a raw IDCODE, ignoring its revision bits.
    pub fn try_from_u32(idcode: u32) -> (r: Option<Self>)
        ensures
            r == resolve(idcode),
    {
        let r = Self::from_masked(idcode & REVISION_MASK);
        proof {
            match r {
                Some(d) => {
                    let e = choose|e: X7IDCODE| e.spec_code() == masked(idcode);
                    lemma_code_injective(d, e);
                },
                None => {},
            }
        }
        r
    }

    /// Look up a device by its canonical name, ignoring ASCII case.
    pub fn try_from_name(name: &str) -> (r: Option<Self>)
        ensures
            r == resolve_name(name@),
    {
        let r = Self::name_lookup(name);
        proof {
            match r {
                Some(d) => {
                    let e = choose|e: X7IDCODE| e.spec_name() == ascii_upper(name@);
                    lemma_name_injective(d, e);
                },
                None => {},
            }
        }
        r
    }

    fn name_lookup(name: &str) -> (r: Option<Self>)
        ensures
            r matches Some(d) ==> d.spec_name() == ascii_upper(name@),
            r is None ==> forall|d: X7IDCODE| d.spec_name() != ascii_upper(name@),
    {
        if upper_matches(name, "X7S6") {
            return Some(X7IDCODE::X7S6);
        }
        if upper_matches(name, "X7S15") {
            return Some(X7IDCODE::X7S15);
        }
        if upper_matches(name, "X7S25") {
            return Some(X7IDCODE::X7S25);
        }
        if upper_matches(name, "X7S50") {
            return Some(X7IDCODE::X7S50);
        }
        if upper_matches(name, "X7S75") {
            return Some(X7IDCODE::X7S75);
        }
        if upper_matches(name, "X7S100") {
            return Some(X7IDCODE::X7S100);
        }
        if upper_matches(name, "X7A12T") {
            return Some(X7IDCODE::X7A12T);
        }
        if upper_matches(name, "X7A15T") {
            return Some(X7IDCODE::X7A15T);
        }
        if upper_matches(name, "X7A25T") {
            return Some(X7IDCODE::X7A25T);
        }
        if upper_matches(name, "X7A35T") {
            return Some(X7IDCODE::X7A35T);
        }
        if upper_matches(name, "X7A50T") {
            return Some(X7IDCODE::X7A50T);
        }
        if upper_matches(name, "X7A75T") {
            return Some(X7IDCODE::X7A75T);
        }
        if upper_matches(name, "X7A100T") {
            return Some(X7IDCODE::X7A100T);
        }
        if upper_matches(name, "X7A200T") {
            return Some(X7IDCODE::X7A200T);
        }
        if upper_matches(name, "X7K70T") {
            return Some(X7IDCODE::X7K70T);
        }
        if upper_matches(name, "X7K160T") {
            return Some(X7IDCODE::X7K160T);
        }
        if upper_matches(name, "X7K325T") {
            return Some(X7IDCODE::X7K325T);
        }
        if upper_matches(name, "X7K355T") {
            return Some(X7IDCODE::X7K355T);
        }
        if upper_matches(name, "X7K410T") {
            return Some(X7IDCODE::X7K410T);
        }
        if upper_matches(name, "X7K420T") {
            return Some(X7IDCODE::X7K420T);
        }
        if upper_matches(name, "X7K480T") {
            return Some(X7IDCODE::X7K480T);
        }
        if upper_matches(name, "X7V575T") {
            return Some(X7IDCODE::X7V575T);
        }
        if upper_matches(name, "X7VX330T") {
            return Some(X7IDCODE::X7VX330T);
        }
        if upper_matches(name, "X7VX415T") {
            return Some(X7IDCODE::X7VX415T);
        }
        if upper_matches(name, "X7VX485T") {
            return Some(X7IDCODE::X7VX485T);
        }
        if upper_matches(name, "X7VX550T") {
            return Some(X7IDCODE::X7VX550T);
        }
        if upper_matches(name, "X7VX690T") {
            return Some(X7IDCODE::X7VX690T);
        }
        if upper_matches(name, "X7VX980T") {
            return Some(X7IDCODE::X7VX980T);
        }
        if upper_matches(name, "X7VX1140T") {
            return Some(X7IDCODE::X7VX1140T);
        }
        if upper_matches(name, "X7VH580T") {
            return Some(X7IDCODE::X7VH580T);
        }
        if upper_matches(name, "X7VH870T") {
            return Some(X7IDCODE::X7VH870T);
        }
        if upper_matches(name, "X7Z007S") {
            return Some(X7IDCODE::X7Z007S);
        }
        if upper_matches(name, "X7Z012S") {
            return Some(X7IDCODE::X7Z012S);
        }
        if upper_matches(name, "X7Z014S") {
            return Some(X7IDCODE::X7Z014S);
        }
        if upper_matches(name, "X7Z010") {
            return Some(X7IDCODE::X7Z010);
        }
        if upper_matches(name, "X7Z015") {
            return Some(X7IDCODE::X7Z015);
        }
        if upper_matches(name, "X7Z020") {
            return Some(X7IDCODE::X7Z020);
        }
        if upper_matches(name, "X7Z030") {
            return Some(X7IDCODE::X7Z030);
        }
        if upper_matches(name, "X7Z035") {
            return Some(X7IDCODE::X7Z035);
        }
        if upper_matches(name, "X7Z045") {
            return Some(X7IDCODE::X7Z045);
        }
        if upper_matches(name, "X7Z100") {
            return Some(X7IDCODE::X7Z100);
        }
        None
    }

    /// The canonical name of this device.
    pub fn name(&self) -> (r: &'static str)
        ensures
            r@ == self.spec_name(),
    {
        match self {
            X7IDCODE::X7S6 => "X7S6",
            X7IDCODE::X7S15 => "X7S15",
            X7IDCODE::X7S25 => "X7S25",
            X7IDCODE::X7S50 => "X7S50",
            X7IDCODE::X7S75 => "X7S75",
            X7IDCODE::X7S100 => "X7S100",
            X7IDCODE::X7A12T => "X7A12T",
            X7IDCODE::X7A15T => "X7A15T",
            X7IDCODE::X7A25T => "X7A25T",
            X7IDCODE::X7A35T => "X7A35T",
            X7IDCODE::X7A50T => "X7A50T",
            X7IDCODE::X7A75T => "X7A75T",
            X7IDCODE::X7A100T => "X7A100T",
            X7IDCODE::X7A200T => "X7A200T",
            X7IDCODE::X7K70T => "X7K70T",
            X7IDCODE::X7K160T => "X7K160T",
            X7IDCODE::X7K325T => "X7K325T",
            X7IDCODE::X7K355T => "X7K355T",
            X7IDCODE::X7K410T => "X7K410T",
            X7IDCODE::X7K420T => "X7K420T",
            X7IDCODE::X7K480T => "X7K480T",
            X7IDCODE::X7V575T => "X7V575T",
            X7IDCODE::X7VX330T => "X7VX330T",
            X7IDCODE::X7VX415T => "X7VX415T",
            X7IDCODE::X7VX485T => "X7VX485T",
            X7IDCODE::X7VX550T => "X7VX550T",
            X7IDCODE::X7VX690T => "X7VX690T",
            X7IDCODE::X7VX980T => "X7VX980T",
            X7IDCODE::X7VX1140T => "X7VX1140T",
            X7IDCODE::X7VH580T => "X7VH580T",
            X7IDCODE::X7VH870T => "X7VH870T",
            X7IDCODE::X7Z007S => "X7Z007S",
            X7IDCODE::X7Z012S => "X7Z012S",
            X7IDCODE::X7Z014S => "X7Z014S",
            X7IDCODE::X7Z010 => "X7Z010",
            X7IDCODE::X7Z015 => "X7Z015",
            X7IDCODE::X7Z020 => "X7Z020",
            X7IDCODE::X7Z030 => "X7Z030",
            X7IDCODE::X7Z035 => "X7Z035",
            X7IDCODE::X7Z045 => "X7Z045",
            X7IDCODE::X7Z100 => "X7Z100",
        }
    }

    /// Whether `self` and `other` identify the same device, the revision aside.
    pub open spec fn spec_compatible(self, other: X7IDCODE) -> bool {
        self.spec_code() == other.spec_code()
    }

    /// Whether `self` and `other` identify the same device, the revision aside.
    pub fn compatible(&self, other: X7IDCODE) -> (r: bool)
        ensures
            r == self.spec_compatible(other),
            r == (*self == other),
    {
        proof {
            if self.spec_code() == other.spec_code() {
                lemma_code_injective(*self, other);
            }
        }
        *self == other
    }

    /// Number of configuration bits per frame, as
    /// (pad bits before a frame, bits per frame, pad bits after a frame).
    ///
    /// Frame geometry is not tabulated for these devices: all three are zero.
    pub fn config_bits_per_frame(&self) -> (r: (usize, usize, usize))
        ensures
            r == (0usize, 0usize, 0usize),
    {
        (0, 0, 0)
    }
}

/// Two devices with the same IDCODE are the same device.
pub proof fn lemma_code_injective(a: X7IDCODE, b: X7IDCODE)
    requires
        a.spec_code() == b.spec_code(),
    ensures
        a == b,
{
}

/// Looking up a raw IDCODE depends on its low 28 bits alone: setting any
/// revision nibble in the top four bits gives the same result.
pub proof fn lemma_resolve_ignores_revision(code: u32, rev: u32)
    requires
        rev < 16,
    ensures
        resolve(code) == resolve(code | (rev << 28u32)),
{
    assert(code & REVISION_MASK == (code | (rev << 28u32)) & REVISION_MASK) by (bit_vector)
        requires
            rev < 16,
            REVISION_MASK == 0x0FFF_FFFFu32,
    ;
}

/// Compatibility is reflexive and symmetric, and holds exactly when the
/// masked IDCODEs are equal; for devices looked up from raw IDCODEs it
/// depends on the masked raw codes alone, not on their revisions.
pub proof fn lemma_compatible_is_masked_equality(a: X7IDCODE, b: X7IDCODE, raw_a: u32, raw_b: u32)
    ensures
        a.spec_compatible(a),
        a.spec_compatible(b) == b.spec_compatible(a),
        a.spec_compatible(b) <==> a == b,
        resolve(raw_a) == Some(a) && resolve(raw_b) == Some(b) ==> (a.spec_compatible(b) <==> masked(
            raw_a,
        ) == masked(raw_b)),
{
    if a.spec_code() == b.spec_code() {
        lemma_code_injective(a, b);
    }
}

/// Character `i` of `s` as a number, or zero past its end.
spec fn char_code(s: Seq<char>, i: int) -> u32 {
    if 0 <= i < s.len() {
        s[i] as u32
    } else {
        0
    }
}

/// Enough of `s` to tell the canonical device names apart.
spec fn name_key(s: Seq<char>) -> (nat, u32, u32, u32, u32, u32, u32, u32) {
    (
        s.len(),
        char_code(s, 2),
        char_code(s, 3),
        char_code(s, 4),
        char_code(s, 5),
        char_code(s, 6),
        char_code(s, 7),
        char_code(s, 8),
    )
}

/// No two devices share a canonical name.
pub proof fn lemma_name_injective(a: X7IDCODE, b: X7IDCODE)
    requires
        a.spec_name() == b.spec_name(),
    ensures
        a == b,
{
    reveal_strlit("X7S6");
    reveal_strlit("X7S15");
    reveal_strlit("X7S25");
    reveal_strlit("X7S50");
    reveal_strlit("X7S75");
    reveal_strlit("X7S100");
    reveal_strlit("X7A12T");
    reveal_strlit("X7A15T");
    reveal_strlit("X7A25T");
    reveal_strlit("X7A35T");
    reveal_strlit("X7A50T");
    reveal_strlit("X7A75T");
    reveal_strlit("X7A100T");
    reveal_strlit("X7A200T");
    reveal_strlit("X7K70T");
    reveal_strlit("X7K160T");
    reveal_strlit("X7K325T");
    reveal_strlit("X7K355T");
    reveal_strlit("X7K410T");
    reveal_strlit("X7K420T");
    reveal_strlit("X7K480T");
    reveal_strlit("X7V575T");
    reveal_strlit("X7VX330T");
    reveal_strlit("X7VX415T");
    reveal_strlit("X7VX485T");
    reveal_strlit("X7VX550T");
    reveal_strlit("X7VX690T");
    reveal_strlit("X7VX980T");
    reveal_strlit("X7VX1140T");
    reveal_strlit("X7VH580T");
    reveal_strlit("X7VH870T");
    reveal_strlit("X7Z007S");
    reveal_strlit("X7Z012S");
    reveal_strlit("X7Z014S");
    reveal_strlit("X7Z010");
    reveal_strlit("X7Z015");
    reveal_strlit("X7Z020");
    reveal_strlit("X7Z030");
    reveal_strlit("X7Z035");
    reveal_strlit("X7Z045");
    reveal_strlit("X7Z100");
    assert(name_key(a.spec_name()) == name_key(b.spec_name()));
}

/// Looking up the canonical name of a device gives that device back.
pub proof fn lemma_name_round_trip(d: X7IDCODE)
    ensures
        resolve_name(d.spec_name()) == Some(d),
{
    reveal_strlit("X7S6");
    reveal_strlit("X7S15");
    reveal_strlit("X7S25");
    reveal_strlit("X7S50");
    reveal_strlit("X7S75");
    reveal_strlit("X7S100");
    reveal_strlit("X7A12T");
    reveal_strlit("X7A15T");
    reveal_strlit("X7A25T");
    reveal_strlit("X7A35T");
    reveal_strlit("X7A50T");
    reveal_strlit("X7A75T");
    reveal_strlit("X7A100T");
    reveal_strlit("X7A200T");
    reveal_strlit("X7K70T");
    reveal_strlit("X7K160T");
    reveal_strlit("X7K325T");
    reveal_strlit("X7K355T");
    reveal_strlit("X7K410T");
    reveal_strlit("X7K420T");
    reveal_strlit("X7K480T");
    reveal_strlit("X7V575T");
    reveal_strlit("X7VX330T");
    reveal_strlit("X7VX415T");
    reveal_strlit("X7VX485T");
    reveal_strlit("X7VX550T");
    reveal_strlit("X7VX690T");
    reveal_strlit("X7VX980T");
    reveal_strlit("X7VX1140T");
    reveal_strlit("X7VH580T");
    reveal_strlit("X7VH870T");
    reveal_strlit("X7Z007S");
    reveal_strlit("X7Z012S");
    reveal_strlit("X7Z014S");
    reveal_strlit("X7Z010");
    reveal_strlit("X7Z015");
    reveal_strlit("X7Z020");
    reveal_strlit("X7Z030");
    reveal_strlit("X7Z035");
    reveal_strlit("X7Z045");
    reveal_strlit("X7Z100");
    assert(ascii_upper(d.spec_name()) =~= d.spec_name());
    let e = choose|e: X7IDCODE| e.spec_name() == ascii_upper(d.spec_name());
    lemma_name_injective(d, e);
}

/// Whether `name`, with ASCII letters in upper case, is `canon`.
fn upper_matches(name: &str, canon: &str) -> (r: bool)
    ensures
        r == (ascii_upper(name@) == canon@),
{
    let n = name.unicode_len();
    let m = canon.unicode_len();
    if n != m {
        assert(ascii_upper(name@).len() != canon@.len());
        return false;
    }
    let mut i: usize = 0;
    while i < n
        invariant
            n == name@.len(),
            n == canon@.len(),
            i <= n,
            forall|j: int| 0 <= j < i ==> upper_char(#[trigger] name@[j]) == canon@[j],
        decreases n - i,
    {
        let c = name.get_char(i);
        let k = canon.get_char(i);
        let same = if 'a' <= c && c <= 'z' {
            (c as u32) - 32 == (k as u32)
        } else {
            c == k
        };
        if !same {
            assert(ascii_upper(name@)[i as int] != canon@[i as int]);
            return false;
        }
        i = i + 1;
    }
    assert(ascii_upper(name@) =~= canon@);
    true
}

/// Whether entry `i` of a scanned chain holds the IDCODE of a known device.
pub open spec fn is_x7_at(idcodes: Seq<Option<u32>>, i: int) -> bool {
    0 <= i < idcodes.len() && idcodes[i] is Some && resolve(idcodes[i]->0) is Some
}

/// The device at entry `index` of a scanned chain, if that entry holds a
/// known IDCODE.
pub open spec fn x7_at(idcodes: Seq<Option<u32>>, index: int) -> Option<X7IDCODE> {
    if 0 <= index < idcodes.len() && idcodes[index] is Some {
        resolve(idcodes[index]->0)
    } else {
        None
    }
}

/// The device at TAP `index` of a chain whose IDCODEs are `idcodes`
/// (`None` for a TAP that was in BYPASS), if it is a known 7-series device.
pub fn check_tap_idx(idcodes: &[Option<u32>], index: usize) -> (r: Option<X7IDCODE>)
    ensures
        r == x7_at(idcodes@, index as int),
{
    if index < idcodes.len() {
        match idcodes[index] {
            Some(code) => X7IDCODE::try_from_u32(code),
            None => None,
        }
    } else {
        None
    }
}

/// The only TAP of a chain whose IDCODEs are `idcodes` that is a known
/// 7-series device, with that device; `None` where there is no such TAP
/// or more than one.
pub fn auto_tap_idx(idcodes: &[Option<u32>]) -> (r: Option<(usize, X7IDCODE)>)
    ensures
        r matches Some((i, d)) ==> {
            &&& is_x7_at(idcodes@, i as int)
            &&& resolve(idcodes@[i as int]->0) == Some(d)
            &&& forall|j: int| j != i ==> !is_x7_at(idcodes@, j)
        },
        r is None ==> (forall|j: int| !is_x7_at(idcodes@, j)) || exists|j: int, k: int|
            j != k && is_x7_at(idcodes@, j) && is_x7_at(idcodes@, k),
{
    let mut found: Option<(usize, X7IDCODE)> = None;
    let mut i: usize = 0;
    while i < idcodes.len()
        invariant
            i <= idcodes@.len(),
            found matches Some((f, d)) ==> {
                &&& f < i
                &&& is_x7_at(idcodes@, f as int)
                &&& resolve(idcodes@[f as int]->0) == Some(d)
                &&& forall|j: int| 0 <= j < i && j != f ==> !is_x7_at(idcodes@, j)
            },
            found is None ==> forall|j: int| 0 <= j < i ==> !is_x7_at(idcodes@, j),
        decreases idcodes@.len() - i,
    {
        let entry = match idcodes[i] {
            Some(code) => X7IDCODE::try_from_u32(code),
            None => None,
        };
        if let Some(d) = entry {
            match found {
                Some((f, _)) => {
                    assert(is_x7_at(idcodes@, f as int) && is_x7_at(idcodes@, i as int));
                    return None;
                },
                None => {
                    found = Some((i, d));
                },
            }
        }
        i = i + 1;
    }
    found
}

} // verus!
