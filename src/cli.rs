//! Command-line conventions of the desktop application.
use vstd::prelude::*;
use vstd::string::StringSliceAdditionalSpecFns;
use vstd::utf8::encode_utf8;

verus! {

/// The transcript formats that can be asked for.
pub fn get_possible_formats() -> (r: Vec<String>)
    ensures
        r@.len() == 3,
        r@[0]@ == "txt"@,
        r@[1]@ == "srt"@,
        r@[2]@ == "vtt"@,
{
    vec!["txt".to_owned(), "srt".to_owned(), "vtt".to_owned()]
}

/// An argument that asks for the command-line mode: it starts with `--` or
/// is `-h` (given as its UTF-8 bytes).
pub open spec fn is_cli_flag(b: Seq<u8>) -> bool {
    (b.len() >= 2 && b[0] == 45 && b[1] == 45) || b == seq![45u8, 104u8]
}

/// Whether any of the arguments asks for the command-line mode.
pub fn is_cli_detected(args: &Vec<String>) -> (r: bool)
    ensures
        r == exists|i: int| 0 <= i < args@.len() && is_cli_flag(encode_utf8(#[trigger] args@[i]@)),
{
    let mut i: usize = 0;
    while i < args.len()
        invariant
            i <= args@.len(),
            forall|j: int| 0 <= j < i ==> !is_cli_flag(encode_utf8(#[trigger] args@[j]@)),
        decreases args@.len() - i,
    {
        let b = args[i].as_str().as_bytes();
        let long = b.len() >= 2 && b[0] == 45 && b[1] == 45;
        let help = b.len() == 2 && b[0] == 45 && b[1] == 104;
        proof {
            assert(b@ == encode_utf8(args@[i as int]@));
            if b@.len() == 2 && b@[0] == 45 && b@[1] == 104 {
                assert(b@ =~= seq![45u8, 104u8]);
            }
        }
        if long || help {
            return true;
        }
        i += 1;
    }
    false
}

} // verus!
