use vstd::prelude::*;

verus! {

/// The program run when the caller names none; it is looked up on `PATH`.
pub const NFT_DEFAULT_PROGRAM: &'static str = "nft";

/// The texts of a list of arguments.
pub open spec fn texts(args: Seq<&str>) -> Seq<Seq<char>> {
    args.map_values(|a: &str| a@)
}

/// The texts of the caller's extra arguments; none when there are none.
pub open spec fn extra_texts(args: Option<Vec<&str>>) -> Seq<Seq<char>> {
    match args {
        Some(v) => texts(v@),
        None => Seq::empty(),
    }
}

/// The command line for applying a ruleset: JSON mode, and the ruleset read
/// from standard input, then the extra arguments in the caller's order.
pub open spec fn apply_command(extra: Seq<Seq<char>>) -> Seq<Seq<char>> {
    seq!["-j"@, "-f"@, "-"@] + extra
}

/// The command line for reading the ruleset: JSON mode, and a listing of
/// the whole ruleset, then the extra arguments in the caller's order.
pub open spec fn retrieve_command(extra: Seq<Seq<char>>) -> Seq<Seq<char>> {
    seq!["-j"@, "list"@, "ruleset"@] + extra
}

/// The program to run: the caller's, or [`NFT_DEFAULT_PROGRAM`].
pub fn program_or_default<'a>(program: Option<&'a str>) -> (r: &'a str)
    ensures
        r@ == match program {
            Some(p) => p@,
            None => NFT_DEFAULT_PROGRAM@,
        },
{
    match program {
        Some(p) => p,
        None => NFT_DEFAULT_PROGRAM,
    }
}

/// Puts `first`, `second` and `third` in front of the caller's extra
/// arguments, which are passed on unchanged.
fn with_prefix<'a>(first: &'a str, second: &'a str, third: &'a str, args: Option<Vec<&'a str>>) -> (r: Vec<&'a str>)
    ensures
        texts(r@) == seq![first@, second@, third@] + extra_texts(args),
{
    let mut all: Vec<&'a str> = Vec::new();
    all.push(first);
    all.push(second);
    all.push(third);
    let ghost prefix = all@;
    match args {
        Some(extra) => {
            let mut extra = extra;
            let ghost given = extra@;
            all.append(&mut extra);
            assert(texts(all@) =~= seq![first@, second@, third@] + texts(given));
        },
        None => {
            assert(texts(all@) =~= seq![first@, second@, third@] + extra_texts(args));
        },
    }
    all
}

/// The arguments that `nft` is given to apply a ruleset.
pub fn apply_args<'a>(args: Option<Vec<&'a str>>) -> (r: Vec<&'a str>)
    ensures
        texts(r@) == apply_command(extra_texts(args)),
{
    with_prefix("-j", "-f", "-", args)
}

/// The arguments that `nft` is given to list the current ruleset.
pub fn retrieve_args<'a>(args: Option<Vec<&'a str>>) -> (r: Vec<&'a str>)
    ensures
        texts(r@) == retrieve_command(extra_texts(args)),
{
    with_prefix("-j", "list", "ruleset", args)
}

} // verus!
