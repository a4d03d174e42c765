//! A greeting, written to a buffer of bytes.

use vstd::prelude::*;

verus! {

/// The bytes of the line `hello world`, with the line feed that ends it.
pub open spec fn greeting() -> Seq<u8> {
    seq![104u8, 101u8, 108u8, 108u8, 111u8, 32u8, 119u8, 111u8, 114u8, 108u8, 100u8, 10u8]
}

/// Writes the greeting to the end of `out`.
pub fn say_hello(out: &mut Vec<u8>)
    ensures
        final(out)@ == old(out)@ + greeting(),
{
    let line = "hello world\n";
    let bytes = line.as_bytes();
    proof {
        reveal_strlit("hello world\n");
        vstd::string::is_ascii_spec_bytes(line);
        assert(bytes@ =~= greeting());
    }
    for i in 0..bytes.len()
        invariant
            bytes@ == greeting(),
            out@ == old(out)@ + greeting().take(i as int),
    {
        out.push(bytes[i]);
        assert(out@ =~= old(out)@ + greeting().take(i + 1));
    }
    assert(out@ =~= old(out)@ + greeting());
}

} // verus!
