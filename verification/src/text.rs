use vstd::prelude::*;
use vstd::string::*;

use crate::errors::LoggingError;

verus! {

/// Holds when a byte sequence is free of the foreign string terminator byte.
pub open spec fn nul_free(bytes: Seq<u8>) -> bool {
    forall|i: int| 0 <= i < bytes.len() ==> bytes[i] != 0
}

/// A byte string in the foreign convention: every interior byte is nonzero
/// and a single terminator byte closes the text.
pub struct CText {
    /// The text's bytes, terminator included.
    pub bytes: Vec<u8>,
}

impl CText {
    /// Well-formedness: nonempty, terminator last, no interior terminator.
    pub open spec fn wf(self) -> bool {
        &&& self.bytes@.len() >= 1
        &&& self.bytes@.last() == 0
        &&& nul_free(self.bytes@.drop_last())
    }

    /// The interior text, without the terminator.
    pub open spec fn interior(self) -> Seq<u8> {
        self.bytes@.drop_last()
    }

    /// Converts caller text to the foreign string convention. Fails exactly
    /// when the text holds an embedded terminator byte.
    pub fn new(s: &str) -> (r: Result<CText, LoggingError>)
        ensures
            r is Ok <==> nul_free(s.spec_bytes()),
            r matches Ok(t) ==> t.wf() && t.interior() == s.spec_bytes() && t.bytes@
                == s.spec_bytes().push(0),
            r is Err ==> r == Err::<CText, LoggingError>(LoggingError::StringConversion),
    {
        let src = s.as_bytes();
        let mut bytes: Vec<u8> = Vec::new();
        let mut i: usize = 0;
        while i < src.len()
            invariant
                i <= src@.len(),
                src@ == s.spec_bytes(),
                bytes@ == src@.take(i as int),
                nul_free(src@.take(i as int)),
            decreases src@.len() - i,
        {
            let b = src[i];
            if b == 0 {
                return Err(LoggingError::StringConversion);
            }
            bytes.push(b);
            assert(bytes@ =~= src@.take((i + 1) as int));
            i = i + 1;
        }
        bytes.push(0);
        let t = CText { bytes };
        assert(t.bytes@.drop_last() =~= s.spec_bytes());
        Ok(t)
    }
}

} // verus!
