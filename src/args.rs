//! Where the inputs come from and where the output goes.
use vstd::prelude::*;
use vstd::string::StringSliceAdditionalSpecFns;

verus! {

/// A byte source or sink: a standard stream, or a file named by its path.
#[derive(Debug)]
pub enum IOType {
    Stdin,
    Stdout,
    File(String),
}

/// The path that names a standard stream.
pub open spec fn is_dash(path: &str) -> bool {
    path.spec_bytes() == seq![45u8]
}

/// `r` is the input named by `path`.
pub open spec fn is_input_for(r: IOType, path: &str) -> bool {
    if is_dash(path) {
        r is Stdin
    } else {
        r matches IOType::File(p) && p@ == path@
    }
}

/// `r` is the output named by `path`.
pub open spec fn is_output_for(r: IOType, path: &str) -> bool {
    if is_dash(path) {
        r is Stdout
    } else {
        r matches IOType::File(p) && p@ == path@
    }
}

impl IOType {
    /// An input: standard input for `-`, else the file at `path`.
    pub fn input(path: &str) -> (r: Self)
        ensures
            is_input_for(r, path),
    {
        let b = path.as_bytes();
        if b.len() == 1 && b[0] == 45u8 {
            assert(b@ =~= seq![45u8]);
            IOType::Stdin
        } else {
            IOType::File(path.to_owned())
        }
    }

    /// An output: standard output for `-`, else the file at `path`.
    pub fn output(path: &str) -> (r: Self)
        ensures
            is_output_for(r, path),
    {
        let b = path.as_bytes();
        if b.len() == 1 && b[0] == 45u8 {
            assert(b@ =~= seq![45u8]);
            IOType::Stdout
        } else {
            IOType::File(path.to_owned())
        }
    }

    /// The input that goes with this one: a stream stays standard input, a
    /// file's path is mapped by `f`.
    pub fn derive_input<F: FnOnce(&String) -> String>(&self, f: F) -> (r: Self)
        requires
            self matches IOType::File(p) ==> f.requires((&p,)),
        ensures
            !(self is File) ==> r is Stdin,
            self matches IOType::File(p) ==> (r matches IOType::File(q) && f.ensures((&p,), q)),
    {
        match self {
            IOType::Stdin => IOType::Stdin,
            IOType::Stdout => IOType::Stdin,
            IOType::File(p) => IOType::File(f(p)),
        }
    }

    /// The output that goes with this one: a stream becomes standard output,
    /// a file's path is mapped by `f`.
    pub fn derive_output<F: FnOnce(&String) -> String>(&self, f: F) -> (r: Self)
        requires
            self matches IOType::File(p) ==> f.requires((&p,)),
        ensures
            !(self is File) ==> r is Stdout,
            self matches IOType::File(p) ==> (r matches IOType::File(q) && f.ensures((&p,), q)),
    {
        match self {
            IOType::Stdin => IOType::Stdout,
            IOType::Stdout => IOType::Stdout,
            IOType::File(p) => IOType::File(f(p)),
        }
    }

    /// How the source or sink is named in messages.
    pub fn describe(&self) -> (r: String)
        ensures
            self is Stdin ==> r@ == "stdin"@,
            self is Stdout ==> r@ == "stdout"@,
            self matches IOType::File(p) ==> r@ == p@,
    {
        match self {
            IOType::Stdin => "stdin".to_owned(),
            IOType::Stdout => "stdout".to_owned(),
            IOType::File(p) => p.clone(),
        }
    }
}

/// The four inputs and the output of a run.
#[derive(Debug)]
pub struct Args {
    pub infile: IOType,
    pub sksa: IOType,
    pub virage2: IOType,
    pub bootrom: IOType,
    pub outfile: IOType,
}

impl Args {
    /// Arguments from their paths (`-` for a standard stream). Without an
    /// output path the output follows the payload: `rename` of its path, or
    /// standard output when the payload comes from standard input.
    pub fn from_paths<F: FnOnce(&String) -> String>(
        infile: &str,
        sksa: &str,
        virage2: &str,
        bootrom: &str,
        outfile: Option<&str>,
        rename: F,
    ) -> (r: Self)
        requires
            forall|p: &String| #[trigger] rename.requires((p,)),
        ensures
            is_input_for(r.infile, infile),
            is_input_for(r.sksa, sksa),
            is_input_for(r.virage2, virage2),
            is_input_for(r.bootrom, bootrom),
            outfile matches Some(o) ==> is_output_for(r.outfile, o),
            outfile is None && is_dash(infile) ==> r.outfile is Stdout,
            outfile is None && !is_dash(infile) ==> (r.outfile matches IOType::File(q)
                && exists|p: &String| p@ == infile@ && #[trigger] rename.ensures((p,), q)),
    {
        let infile = IOType::input(infile);
        let sksa = IOType::input(sksa);
        let virage2 = IOType::input(virage2);
        let bootrom = IOType::input(bootrom);
        let outfile = match outfile {
            Some(f) => IOType::output(f),
            None => infile.derive_output(rename),
        };
        Args { infile, sksa, virage2, bootrom, outfile }
    }
}

} // verus!
