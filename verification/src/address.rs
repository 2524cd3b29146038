//! External-account addresses.
//!
//! The game backend stores each player's ledger address as free-form text.
//! The bridge recognises three shapes: text that plainly is no address (no
//! `0x` prefix, or the `0x0` placeholder) and marks a player who never
//! linked an account; a well-formed hex literal, `0x` followed by one to 64
//! hex digits, which names a 32-byte account; and anything else, which is a
//! data error.  A parsed address is kept canonically as its 32 bytes, left
//! padded with zeros, so that two spellings of the same account ("0x5",
//! "0x05") deduplicate to one grant key.

use vstd::prelude::*;
use vstd::string::StrSliceExecFns;

verus! {

/// The text starts with the literal prefix `0x`.
pub open spec fn has_hex_prefix(s: Seq<char>) -> bool {
    s.len() >= 2 && s[0] == '0' && s[1] == 'x'
}

/// The recognised zero-address placeholder, exactly `0x0`.
pub open spec fn is_zero_sentinel(s: Seq<char>) -> bool {
    s.len() == 3 && s[0] == '0' && s[1] == 'x' && s[2] == '0'
}

/// Text that marks an unlinked account: empty, prefix-less, or the zero
/// placeholder.  Such a player is silently skipped, never an error.
pub open spec fn spec_unlinked(s: Seq<char>) -> bool {
    !has_hex_prefix(s) || is_zero_sentinel(s)
}

pub open spec fn is_hex_digit(c: char) -> bool {
    (48 <= c as u32 && c as u32 <= 57) || (97 <= c as u32 && c as u32 <= 102) || (65 <= c as u32
        && c as u32 <= 70)
}

pub open spec fn hex_digit_value(c: char) -> u8 {
    if 48 <= c as u32 && c as u32 <= 57 {
        (c as u32 - 48) as u8
    } else if 97 <= c as u32 && c as u32 <= 102 {
        (c as u32 - 87) as u8
    } else {
        (c as u32 - 55) as u8
    }
}

/// A well-formed address literal: the `0x` prefix followed by one to 64 hex
/// digits.
pub open spec fn well_formed_hex_literal(s: Seq<char>) -> bool {
    &&& has_hex_prefix(s)
    &&& 3 <= s.len() <= 66
    &&& forall|i: int| 2 <= i < s.len() ==> is_hex_digit(s[i])
}

/// The `k`-th hex digit counted from the right end of the literal, zero for
/// positions beyond the written digits (the left padding).
pub open spec fn nibble_from_right(s: Seq<char>, k: int) -> u8 {
    if 0 <= k < s.len() - 2 {
        hex_digit_value(s[s.len() - 1 - k])
    } else {
        0
    }
}

/// Byte `j` of the 32-byte account value, big-endian: byte 31 holds the two
/// rightmost digits.
pub open spec fn spec_addr_byte(s: Seq<char>, j: int) -> u8 {
    (nibble_from_right(s, 2 * (31 - j) + 1) * 16 + nibble_from_right(s, 2 * (31 - j))) as u8
}

/// The 32 bytes a well-formed literal names.
pub open spec fn spec_addr_bytes(s: Seq<char>) -> Seq<u8> {
    Seq::new(32, |j: int| spec_addr_byte(s, j))
}

/// A canonical 32-byte ledger account address.
pub struct AccountAddr {
    bytes: Vec<u8>,
}

impl View for AccountAddr {
    type V = Seq<u8>;

    closed spec fn view(&self) -> Seq<u8> {
        self.bytes@
    }
}

impl AccountAddr {
    pub open spec fn wf(self) -> bool {
        self@.len() == 32
    }

    pub fn as_bytes(&self) -> (b: &Vec<u8>)
        ensures
            b@ == self@,
    {
        &self.bytes
    }

    /// An independent copy of the same account value.
    pub fn duplicate(&self) -> (r: AccountAddr)
        ensures
            r@ == self@,
    {
        let mut bytes: Vec<u8> = Vec::new();
        let mut i: usize = 0;
        while i < self.bytes.len()
            invariant
                i <= self.bytes@.len(),
                bytes@.len() == i,
                forall|k: int| 0 <= k < i ==> bytes@[k] == self.bytes@[k],
            decreases self.bytes@.len() - i,
        {
            bytes.push(self.bytes[i]);
            i += 1;
        }
        proof {
            assert(bytes@ =~= self.bytes@);
        }
        AccountAddr { bytes }
    }

    /// Whether two addresses name the same account.
    pub fn same_account(&self, other: &AccountAddr) -> (r: bool)
        ensures
            r <==> self@ == other@,
    {
        if self.bytes.len() != other.bytes.len() {
            return false;
        }
        let mut i: usize = 0;
        while i < self.bytes.len()
            invariant
                i <= self.bytes@.len(),
                self.bytes@.len() == other.bytes@.len(),
                forall|k: int| 0 <= k < i ==> self.bytes@[k] == other.bytes@[k],
            decreases self.bytes@.len() - i,
        {
            if self.bytes[i] != other.bytes[i] {
                return false;
            }
            i += 1;
        }
        proof {
            assert(self.bytes@ =~= other.bytes@);
        }
        true
    }
}

/// How a stored address string is treated by a grant attempt.
pub enum AddressScreen {
    /// No linked account; the attempt is a silent no-op.
    Unlinked,
    /// A `0x` literal that is not well formed; a data error, surfaced.
    Malformed,
    /// A well-formed literal and the account it names.
    Linked(AccountAddr),
}

/// Classifies a stored address string and parses a well-formed literal into
/// its canonical 32 bytes.
pub fn screen_address(address: &str) -> (r: AddressScreen)
    ensures
        r is Unlinked <==> spec_unlinked(address@),
        r is Malformed <==> !spec_unlinked(address@) && !well_formed_hex_literal(address@),
        r matches AddressScreen::Linked(a) ==> !spec_unlinked(address@) && well_formed_hex_literal(
            address@,
        )
            && a.wf() && a@ == spec_addr_bytes(address@),
{
    let n = address.unicode_len();
    if n < 2 {
        return AddressScreen::Unlinked;
    }
    if !(address.get_char(0) == '0' && address.get_char(1) == 'x') {
        return AddressScreen::Unlinked;
    }
    if n == 3 && address.get_char(2) == '0' {
        return AddressScreen::Unlinked;
    }
    if n < 3 || n > 66 {
        return AddressScreen::Malformed;
    }
    let mut i: usize = 2;
    while i < n
        invariant
            2 <= i <= n,
            n == address@.len(),
            3 <= n <= 66,
            has_hex_prefix(address@),
            !is_zero_sentinel(address@),
            forall|k: int| 2 <= k < i ==> is_hex_digit(address@[k]),
        decreases n - i,
    {
        if !is_hex_digit_char(address.get_char(i)) {
            return AddressScreen::Malformed;
        }
        i += 1;
    }
    let mut bytes: Vec<u8> = Vec::new();
    let mut j: usize = 0;
    while j < 32
        invariant
            j <= 32,
            n == address@.len(),
            3 <= n <= 66,
            forall|k: int| 2 <= k < n ==> is_hex_digit(address@[k]),
            bytes@.len() == j,
            forall|k: int| 0 <= k < j ==> bytes@[k] == spec_addr_byte(address@, k),
        decreases 32 - j,
    {
        let m = 31 - j;
        let digits = n - 2;
        let low: u8 = if 2 * m < digits {
            hex_digit_value_char(address.get_char(n - 1 - 2 * m))
        } else {
            0
        };
        let high: u8 = if 2 * m + 1 < digits {
            hex_digit_value_char(address.get_char(n - 1 - (2 * m + 1)))
        } else {
            0
        };
        bytes.push(high * 16 + low);
        j += 1;
    }
    proof {
        assert(bytes@ =~= spec_addr_bytes(address@));
    }
    AddressScreen::Linked(AccountAddr { bytes })
}

fn is_hex_digit_char(c: char) -> (r: bool)
    ensures
        r == is_hex_digit(c),
{
    let v = c as u32;
    (48 <= v && v <= 57) || (97 <= v && v <= 102) || (65 <= v && v <= 70)
}

fn hex_digit_value_char(c: char) -> (v: u8)
    requires
        is_hex_digit(c),
    ensures
        v == hex_digit_value(c),
        v <= 15,
{
    let u = c as u32;
    if 48 <= u && u <= 57 {
        (u - 48) as u8
    } else if 97 <= u && u <= 102 {
        (u - 87) as u8
    } else {
        (u - 55) as u8
    }
}

} // verus!
