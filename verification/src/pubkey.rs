use vstd::prelude::*;

verus! {

/// A 32-byte account address.
#[derive(Clone, Copy, Debug)]
pub struct Pubkey {
    pub bytes: [u8; 32],
}

impl View for Pubkey {
    type V = Seq<u8>;

    open spec fn view(&self) -> Seq<u8> {
        self.bytes@
    }
}

impl Pubkey {
    /// The address with the given bytes.
    pub fn new_from_array(bytes: [u8; 32]) -> (k: Pubkey)
        ensures
            k.bytes == bytes,
            k@ == bytes@,
    {
        Pubkey { bytes }
    }

    /// The all-zero address, which a freshly created account holds.
    pub fn zeroed() -> (k: Pubkey)
        ensures
            k@ == Seq::new(32, |i: int| 0u8),
    {
        let k = Pubkey { bytes: [0u8; 32] };
        assert(k@ =~= Seq::new(32, |i: int| 0u8));
        k
    }

    /// Whether two addresses are the same.
    pub fn key_eq(&self, other: &Pubkey) -> (same: bool)
        ensures
            same == (self@ == other@),
    {
        let mut i: usize = 0;
        while i < 32
            invariant
                0 <= i <= 32,
                self@.len() == 32,
                other@.len() == 32,
                forall|j: int| 0 <= j < i ==> self@[j] == other@[j],
            decreases 32 - i,
        {
            if self.bytes[i] != other.bytes[i] {
                return false;
            }
            i = i + 1;
        }
        assert(self@ =~= other@);
        true
    }
}

/// The 32 bytes that `Pubkey::from_str` of the outside crate decodes from a
/// base58 string, or `None` where it refuses the string.
pub uninterp spec fn parsed_base58_pubkey(text: Seq<char>) -> Option<Seq<u8>>;

/// Calls `FromStr::from_str` for `anchor_lang::prelude::Pubkey` (the
/// `solana-pubkey` type) and hands back its bytes. Trusted: the result is
/// `parsed_base58_pubkey` of the text, `None` exactly where the parse fails.
#[verifier::external_body]
pub(crate) fn parse_pubkey(text: &str) -> (key: Option<Pubkey>)
    ensures
        key matches Some(k) ==> parsed_base58_pubkey(text@) == Some(k@),
        key is None ==> parsed_base58_pubkey(text@) is None,
{
    match text.parse::<anchor_lang::prelude::Pubkey>() {
        Ok(k) => Some(Pubkey { bytes: k.to_bytes() }),
        Err(_) => None,
    }
}

} // verus!
