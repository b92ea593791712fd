//! The options that the debugger is started with.

use vstd::prelude::*;
use crate::path::{with_extension, with_extension_spec};

verus! {

/// The paths given on the command line, and the debug flag.
pub struct Opts {
    /// The path to the Meadowlark source file to be compiled.
    pub meadowlark_src: Option<String>,
    /// Path to the ROM's lark source file.
    pub lark_src: Option<String>,
    /// The path to the ROM file that will be run.
    pub romfile: Option<String>,
    /// Start in debug mode?
    pub debug: bool,
}

impl Opts {
    /// Where the lark source of the ROM is: the path given for it, or else
    /// the path of the ROM file with `.lark` in place of its extension.
    pub open spec fn rom_src_path_spec(self) -> Seq<char> {
        match self.lark_src {
            Some(path) => path@,
            None => with_extension_spec(
                with_extension_spec(self.romfile.unwrap()@, Seq::empty()),
                "lark"@,
            ),
        }
    }

    /// The path of the ROM's lark source. One of the two paths it can come
    /// from has to be there.
    pub fn rom_src_path(&self) -> (path: String)
        requires
            self.lark_src is Some || self.romfile is Some,
        ensures
            path@ == self.rom_src_path_spec(),
    {
        match &self.lark_src {
            Some(path) => path.clone(),
            None => {
                match &self.romfile {
                    Some(rom) => {
                        let bare = with_extension(rom.as_str(), "");
                        proof {
                            reveal_strlit("");
                        }
                        assert(""@ =~= Seq::<char>::empty());
                        with_extension(bare.as_str(), "lark")
                    },
                    None => String::new(),
                }
            },
        }
    }
}

} // verus!
