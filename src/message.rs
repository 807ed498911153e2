use vstd::prelude::*;

verus! {

/// The bytes of an ASCII text as the host reads them, followed by the zero
/// byte that ends a C string.
pub open spec fn c_string_of(text: Seq<char>) -> Seq<u8> {
    text.map_values(|c: char| c as u8).push(0u8)
}

/// A byte sequence the host can read as a C string: not empty, ending in a
/// zero byte, with no zero byte before the end.
pub open spec fn is_c_string(b: Seq<u8>) -> bool {
    &&& b.len() > 0
    &&& b.last() == 0u8
    &&& forall|i: int| 0 <= i < b.len() - 1 ==> b[i] != 0u8
}

/// The fixed texts the module hands to the host.
#[derive(Clone, Copy, Debug, PartialEq, Eq, Structural)]
pub enum Message {
    /// The greeting printed when the module is loaded.
    Greeting,
    /// The diagnostic handed to the host's fatal-error routine on a fault.
    FaultNotice,
}

impl Message {
    /// The text of the message, without its terminating zero byte.
    pub open spec fn text(self) -> Seq<char> {
        match self {
            Message::Greeting => "Hello from Rust"@,
            Message::FaultNotice => "Panic in Rust"@,
        }
    }

    /// The bytes handed to the host: the text, then a zero byte.
    pub open spec fn spec_bytes(self) -> Seq<u8> {
        c_string_of(self.text())
    }

    /// The message as a zero-terminated byte string with static lifetime;
    /// nothing is allocated.
    pub fn bytes(&self) -> (r: &'static [u8])
        ensures
            r@ == self.spec_bytes(),
            is_c_string(r@),
    {
        broadcast use vstd::string::group_string_axioms;
        match self {
            Message::Greeting => {
                let s: &'static str = "Hello from Rust\0";
                proof {
                    reveal_strlit("Hello from Rust\0");
                    reveal_strlit("Hello from Rust");
                }
                assert(vstd::string::is_ascii(s));
                let r = s.as_bytes();
                assert(r@ =~= self.spec_bytes());
                r
            },
            Message::FaultNotice => {
                let s: &'static str = "Panic in Rust\0";
                proof {
                    reveal_strlit("Panic in Rust\0");
                    reveal_strlit("Panic in Rust");
                }
                assert(vstd::string::is_ascii(s));
                let r = s.as_bytes();
                assert(r@ =~= self.spec_bytes());
                r
            },
        }
    }
}

} // verus!
