use vstd::prelude::*;

verus! {

/// The player's command-line arguments: the address, then `--no-video` unless
/// video is wanted, then `--really-quiet` unless the run is verbose.
pub open spec fn player_args_spec(url: Seq<char>, show_video: bool, verbose: bool) -> Seq<
    Seq<char>,
> {
    let a = seq![url];
    let b = if show_video {
        a
    } else {
        a.push("--no-video"@)
    };
    if verbose {
        b
    } else {
        b.push("--really-quiet"@)
    }
}

/// Builds the arguments for the external player.
pub fn player_args(url: &str, show_video: bool, verbose: bool) -> (r: Vec<String>)
    ensures
        r@.map_values(|s: String| s@) == player_args_spec(url@, show_video, verbose),
{
    let mut args: Vec<String> = Vec::new();
    args.push(String::from_str(url));
    if !show_video {
        args.push(String::from_str("--no-video"));
    }
    if !verbose {
        args.push(String::from_str("--really-quiet"));
    }
    assert(args@.map_values(|s: String| s@) =~= player_args_spec(url@, show_video, verbose));
    args
}

} // verus!
