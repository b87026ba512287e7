//! Account addresses.

use vstd::prelude::*;

verus! {

/// The address of an account on the ledger: thirty-two bytes, compared byte by byte.
#[derive(Clone, Copy, Debug, PartialEq, Eq)]
pub struct Pubkey {
    pub bytes: [u8; 32],
}

impl View for Pubkey {
    type V = Seq<u8>;

    open spec fn view(&self) -> Seq<u8> {
        self.bytes@
    }
}

impl Pubkey {
    /// The address made of the given bytes.
    pub fn new_from_array(bytes: [u8; 32]) -> (key: Pubkey)
        ensures
            key.bytes == bytes,
    {
        Pubkey { bytes }
    }

    /// The bytes of the address.
    pub fn to_bytes(&self) -> (bytes: [u8; 32])
        ensures
            bytes == self.bytes,
    {
        self.bytes
    }

    /// Whether two addresses are the same.
    pub fn same(&self, other: &Pubkey) -> (same: bool)
        ensures
            same == (*self == *other),
            same == (self@ == other@),
    {
        let mut i: usize = 0;
        while i < 32
            invariant
                i <= 32,
                forall|j: int| 0 <= j < i ==> self.bytes[j] == other.bytes[j],
            decreases 32 - i,
        {
            if self.bytes[i] != other.bytes[i] {
                assert(self.bytes@[i as int] != other.bytes@[i as int]);
                return false;
            }
            i += 1;
        }
        assert(self.bytes =~= other.bytes);
        true
    }
}

/// Two addresses with the same bytes are the same address.
pub proof fn lemma_pubkey_by_bytes(a: Pubkey, b: Pubkey)
    ensures
        (a@ == b@) <==> (a == b),
{
    if a@ == b@ {
        assert forall|i: int| 0 <= i < 32 implies a.bytes[i] == b.bytes[i] by {
            assert(a@[i] == b@[i]);
        }
        assert(a.bytes =~= b.bytes);
    }
}

/// The address of the token ledger program.
pub open spec fn token_program_key() -> Pubkey {
    Pubkey {
        bytes: [
            6, 221, 246, 225, 215, 101, 161, 147, 217, 203, 225, 70, 206, 235, 121, 172,
            28, 180, 133, 237, 95, 91, 55, 145, 58, 140, 245, 133, 126, 255, 0, 169,
        ],
    }
}

/// The address of the token ledger program.
pub fn token_program_id() -> (key: Pubkey)
    ensures
        key == token_program_key(),
{
    Pubkey {
        bytes: [
            6, 221, 246, 225, 215, 101, 161, 147, 217, 203, 225, 70, 206, 235, 121, 172,
            28, 180, 133, 237, 95, 91, 55, 145, 58, 140, 245, 133, 126, 255, 0, 169,
        ],
    }
}

/// The address of this program.
pub open spec fn program_key() -> Pubkey {
    Pubkey {
        bytes: [
            152, 77, 230, 120, 87, 96, 21, 200, 125, 19, 132, 127, 216, 142, 12, 30,
            190, 133, 13, 80, 179, 31, 5, 219, 219, 39, 73, 128, 85, 102, 110, 2,
        ],
    }
}

/// The address of this program.
pub fn program_id() -> (key: Pubkey)
    ensures
        key == program_key(),
{
    Pubkey {
        bytes: [
            152, 77, 230, 120, 87, 96, 21, 200, 125, 19, 132, 127, 216, 142, 12, 30,
            190, 133, 13, 80, 179, 31, 5, 219, 219, 39, 73, 128, 85, 102, 110, 2,
        ],
    }
}

/// The address of the program that creates associated token accounts.
pub open spec fn associated_token_program_key() -> Pubkey {
    Pubkey {
        bytes: [
            140, 151, 37, 143, 78, 36, 137, 241, 187, 61, 16, 41, 20, 142, 13, 131,
            11, 90, 19, 153, 218, 255, 16, 132, 4, 142, 123, 216, 219, 233, 248, 89,
        ],
    }
}

/// The address of the program that creates associated token accounts.
pub fn associated_token_program_id() -> (key: Pubkey)
    ensures
        key == associated_token_program_key(),
{
    Pubkey {
        bytes: [
            140, 151, 37, 143, 78, 36, 137, 241, 187, 61, 16, 41, 20, 142, 13, 131,
            11, 90, 19, 153, 218, 255, 16, 132, 4, 142, 123, 216, 219, 233, 248, 89,
        ],
    }
}

/// The address of the system program.
pub open spec fn system_program_key() -> Pubkey {
    Pubkey {
        bytes: [
            0, 0, 0, 0, 0, 0, 0, 0, 0, 0, 0, 0, 0, 0, 0, 0,
            0, 0, 0, 0, 0, 0, 0, 0, 0, 0, 0, 0, 0, 0, 0, 0,
        ],
    }
}

/// The address of the system program.
pub fn system_program_id() -> (key: Pubkey)
    ensures
        key == system_program_key(),
{
    Pubkey {
        bytes: [
            0, 0, 0, 0, 0, 0, 0, 0, 0, 0, 0, 0, 0, 0, 0, 0,
            0, 0, 0, 0, 0, 0, 0, 0, 0, 0, 0, 0, 0, 0, 0, 0,
        ],
    }
}

/// The address of the rent sysvar.
pub open spec fn rent_sysvar_key() -> Pubkey {
    Pubkey {
        bytes: [
            6, 167, 213, 23, 25, 44, 92, 81, 33, 140, 201, 76, 61, 74, 241, 127,
            88, 218, 238, 8, 155, 161, 253, 68, 227, 219, 217, 138, 0, 0, 0, 0,
        ],
    }
}

/// The address of the rent sysvar.
pub fn rent_sysvar_id() -> (key: Pubkey)
    ensures
        key == rent_sysvar_key(),
{
    Pubkey {
        bytes: [
            6, 167, 213, 23, 25, 44, 92, 81, 33, 140, 201, 76, 61, 74, 241, 127,
            88, 218, 238, 8, 155, 161, 253, 68, 227, 219, 217, 138, 0, 0, 0, 0,
        ],
    }
}

} // verus!
