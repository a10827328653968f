use vstd::prelude::*;

use crate::error::Error;
use crate::text;

verus! {

/// A 10-byte identifier carried in every frame. Two distinct uses share the
/// type: the datalog serial names the communication dongle, the inverter
/// serial names the power-conversion device.
#[derive(Clone, Copy, Debug)]
pub struct Serial {
    bytes: [u8; 10],
}

/// Serials with the same bytes are the same serial.
pub proof fn lemma_serial_view_injective(a: Serial, b: Serial)
    requires
        a@ == b@,
    ensures
        a == b,
{
    assert(a.bytes =~= b.bytes);
}

/// Every serial is exactly ten bytes.
pub broadcast proof fn lemma_serial_len(s: Serial)
    ensures
        (#[trigger] s@).len() == 10,
{
}

impl Serial {
    /// The ten raw bytes of the identifier.
    pub closed spec fn view(self) -> Seq<u8> {
        self.bytes@
    }

    pub fn from_bytes(bytes: [u8; 10]) -> (r: Serial)
        ensures
            r@ == bytes@,
    {
        Serial { bytes }
    }

    pub fn default() -> (r: Serial)
        ensures
            r@ == Seq::new(10, |i: int| 48u8),
            r@.len() == 10,
    {
        let r = Serial { bytes: [48u8; 10] };
        proof {
            assert(r.bytes@ =~= Seq::new(10, |i: int| 48u8));
        }
        r
    }

    pub fn bytes(&self) -> (r: [u8; 10])
        ensures
            r@ == self@,
    {
        self.bytes
    }

    /// Copy ten bytes out of a slice.
    pub fn from_slice(s: &[u8]) -> (r: Serial)
        requires
            s@.len() == 10,
        ensures
            r@ == s@,
    {
        let mut bytes = [0u8; 10];
        let mut i: usize = 0;
        while i < 10
            invariant
                i <= 10,
                s@.len() == 10,
                bytes@.len() == 10,
                forall|j: int| 0 <= j < i ==> bytes@[j] == s@[j],
            decreases 10 - i,
        {
            bytes[i] = s[i];
            i += 1;
        }
        let r = Serial { bytes };
        proof {
            assert(r@ =~= s@);
        }
        r
    }

    /// Every byte of the identifier is ASCII.
    pub open spec fn spec_is_ascii(self) -> bool {
        text::ascii_seq(self@)
    }

    pub fn is_ascii_serial(&self) -> (r: bool)
        ensures
            r == self.spec_is_ascii(),
    {
        let mut i: usize = 0;
        while i < 10
            invariant
                i <= 10,
                forall|j: int| 0 <= j < i ==> self@[j] < 128,
            decreases 10 - i,
        {
            if self.bytes[i] >= 128 {
                return false;
            }
            i += 1;
        }
        true
    }

    /// Parse a ten-character ASCII string into a serial. Any other input is
    /// rejected.
    pub fn parse(s: &str) -> (r: Result<Serial, Error>)
        ensures
            match r {
                Ok(ser) => s@.len() == 10 && vstd::string::is_ascii(s) && ser@ == s@.map(
                    |i: int, c: char| c as u8,
                ) && ser.spec_is_ascii(),
                Err(e) => e == Error::Config && (s@.len() != 10 || !vstd::string::is_ascii(s)),
            },
    {
        broadcast use vstd::string::is_ascii_spec_bytes;

        if !s.is_ascii() {
            return Err(Error::Config);
        }
        let bytes = s.as_bytes_vec();
        if bytes.len() != 10 {
            return Err(Error::Config);
        }
        let ser = Serial::from_slice(bytes.as_slice());
        proof {
            assert(ser@ =~= s@.map(|i: int, c: char| c as u8));
            assert(forall|i: int| 0 <= i < s@.len() ==> (s@[i] as u8) < 128);
        }
        Ok(ser)
    }

    /// Render the identifier as a ten-character string.
    pub fn to_text(&self) -> (r: String)
        requires
            self.spec_is_ascii(),
        ensures
            r@ == text::chars_of(self@),
            r@.len() == 10,
    {
        let mut buf: Vec<u8> = Vec::new();
        let mut i: usize = 0;
        while i < 10
            invariant
                i <= 10,
                self.spec_is_ascii(),
                buf@ =~= self@.subrange(0, i as int),
            decreases 10 - i,
        {
            buf.push(self.bytes[i]);
            i += 1;
            proof {
                assert(buf@ =~= self@.subrange(0, i as int));
            }
        }
        proof {
            assert(buf@ =~= self@);
        }
        text::ascii_bytes_to_string(&buf)
    }

    pub fn eq_serial(&self, other: &Serial) -> (r: bool)
        ensures
            r == (self@ =~= other@),
    {
        let mut i: usize = 0;
        while i < 10
            invariant
                i <= 10,
                forall|j: int| 0 <= j < i ==> self@[j] == other@[j],
            decreases 10 - i,
        {
            if self.bytes[i] != other.bytes[i] {
                return false;
            }
            i += 1;
        }
        proof {
            assert(self@ =~= other@);
        }
        true
    }
}

impl Default for Serial {
    /// Ten ASCII zero digits, the placeholder identifier.
    fn default() -> (r: Self)
        ensures
            r@ == Seq::new(10, |i: int| 48u8),
    {
        Serial::default()
    }
}

impl PartialEq for Serial {
    fn eq(&self, other: &Serial) -> (r: bool) {
        self.eq_serial(other)
    }
}

impl vstd::std_specs::cmp::PartialEqSpecImpl for Serial {
    open spec fn obeys_eq_spec() -> bool {
        true
    }

    open spec fn eq_spec(&self, other: &Serial) -> bool {
        self@ == other@
    }
}

impl Eq for Serial {

}

} // verus!
