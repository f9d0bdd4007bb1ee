//! Verified core of an audio- and MIDI-reactive visual display.
//!
//! The library owns the logic that decides what the display does: the
//! ordered plugin runtime, the spectrum window and its decay filter, the
//! MIDI control mapping, the preset store and the hot-reload debouncer.
//! Device I/O, dynamic loading and all floating-point arithmetic live in
//! the unverified shell around it; every single-precision value crosses
//! the boundary as its exact IEEE-754 bit pattern (`u32`).

use vstd::prelude::*;

pub mod audio_processor;
pub mod loading;
pub mod midi;
pub mod mutstate;
pub mod queue;
pub mod samples;
pub mod save_state;
pub mod watcher;

verus! {

use vstd::string::StringExecFns;

/// Command-line switches recognised by the program.
#[derive(Clone, Copy, PartialEq, Eq, Structural, Debug)]
pub struct Args {
    /// Watch the plugin directory and hot-reload modules on rebuilds.
    pub hmr_enable: bool,
    /// Log every update tick.
    pub log_update: bool,
}

impl Default for Args {
    fn default() -> (r: Self)
        ensures
            r == (Args { hmr_enable: false, log_update: false }),
    {
        Args { hmr_enable: false, log_update: false }
    }
}

/// What a word list of command-line arguments means: switches accumulate
/// left to right, and the word `list` stops parsing with a request to list
/// the MIDI devices and exit.  Unknown words are ignored.
pub open spec fn spec_parse_args(args: Seq<Seq<char>>, acc: Args) -> (Args, bool)
    decreases args.len(),
{
    if args.len() == 0 {
        (acc, false)
    } else if args[0] == "list"@ {
        (acc, true)
    } else {
        let acc2 = if args[0] == "hmr"@ {
            Args { hmr_enable: true, ..acc }
        } else if args[0] == "logupdate"@ {
            Args { log_update: true, ..acc }
        } else {
            acc
        };
        spec_parse_args(args.drop_first(), acc2)
    }
}

/// Parses the command-line words (the program name already removed).
/// Returns the switches together with whether a device listing was
/// requested instead of a run.
pub fn parse_args(args: &Vec<String>) -> (r: (Args, bool))
    ensures
        r == spec_parse_args(args@.map_values(|s: String| s@), Args {
            hmr_enable: false,
            log_update: false,
        }),
{
    let ghost all: Seq<Seq<char>> = args@.map_values(|s: String| s@);
    let w_list: String = String::from_str("list");
    let w_hmr: String = String::from_str("hmr");
    let w_log: String = String::from_str("logupdate");
    let mut acc = Args { hmr_enable: false, log_update: false };
    let mut i: usize = 0;
    proof {
        assert(all.skip(0) =~= all);
    }
    while i < args.len()
        invariant
            0 <= i <= args@.len(),
            all == args@.map_values(|s: String| s@),
            all.len() == args@.len(),
            forall|j: int| 0 <= j < all.len() ==> all[j] == args@[j]@,
            w_list@ == "list"@,
            w_hmr@ == "hmr"@,
            w_log@ == "logupdate"@,
            spec_parse_args(all, Args { hmr_enable: false, log_update: false })
                == spec_parse_args(all.skip(i as int), acc),
        decreases args@.len() - i,
    {
        proof {
            assert(all.skip(i as int).drop_first() =~= all.skip(i + 1));
            assert(all.skip(i as int)[0] == all[i as int]);
        }
        if args[i] == w_list {
            return (acc, true);
        }
        if args[i] == w_hmr {
            acc = Args { hmr_enable: true, ..acc };
        } else if args[i] == w_log {
            acc = Args { log_update: true, ..acc };
        }
        i = i + 1;
    }
    proof {
        assert(all.skip(i as int) =~= Seq::<Seq<char>>::empty());
    }
    (acc, false)
}

} // verus!
