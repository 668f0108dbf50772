//! Startup configuration: picking the serving directory out of the
//! command-line arguments, each argument handed in as its raw bytes.

use vstd::prelude::*;
use crate::bytes::bytes_eq;
use crate::text::{lit_opt_directory, sp_opt_directory};

verus! {

/// The value following the first `--directory` at position 1 or later;
/// nothing when the option is absent or stands last.
pub open spec fn sp_directory_from(args: Seq<Seq<u8>>, n: int) -> Option<Seq<u8>>
    decreases args.len() - n,
{
    if n < 1 || n >= args.len() {
        None
    } else if args[n] == sp_opt_directory() {
        if n + 1 < args.len() {
            Some(args[n + 1])
        } else {
            None
        }
    } else {
        sp_directory_from(args, n + 1)
    }
}

/// Scans the arguments (the program name first, as handed to the process) for
/// `--directory` and returns the value that follows it.
pub fn get_directory(args: &Vec<Vec<u8>>) -> (r: Option<Vec<u8>>)
    ensures
        r.deep_view() == sp_directory_from(args.deep_view(), 1),
{
    let opt = lit_opt_directory();
    let ghost arg_models = args.deep_view();
    let mut n: usize = 1;
    while n < args.len()
        invariant
            1 <= n,
            opt@ == sp_opt_directory(),
            arg_models == args.deep_view(),
            arg_models.len() == args@.len(),
            sp_directory_from(arg_models, 1) == sp_directory_from(arg_models, n as int),
        decreases args@.len() - n,
    {
        proof {
            assert(args@[n as int].deep_view() =~= args@[n as int]@);
            assert(args.deep_view()[n as int] == args@[n as int]@);
        }
        if bytes_eq(args[n].as_slice(), opt.as_slice()) {
            if n + 1 < args.len() {
                proof {
                    assert(args@[n + 1].deep_view() =~= args@[n + 1]@);
                    assert(args.deep_view()[n + 1] == args@[n + 1]@);
                }
                let dir = vstd::slice::slice_to_vec(args[n + 1].as_slice());
                proof {
                    assert(dir.deep_view() =~= dir@);
                    assert(sp_directory_from(arg_models, n as int) == Some(arg_models[n + 1]));
                }
                return Some(dir);
            }
            proof {
                assert(sp_directory_from(arg_models, n as int) is None);
            }
            return None;
        }
        n += 1;
    }
    None
}

} // verus!
