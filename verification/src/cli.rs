//! The command-line surface, as plain data: the option values and their
//! validation rules. Argument parsing and the file-system probes stay
//! with the binary, which passes their outcome in as plain facts.
use vstd::prelude::*;

verus! {

/// The analyzer's command-line options. Method names are held in
/// canonical lower case.
#[derive(Debug, Clone)]
pub struct Cli {
    /// Input archive path.
    pub input: String,
    /// Output report path.
    pub output: String,
    /// Worker threads; the machine's parallelism when absent.
    pub threads: Option<usize>,
    /// Buffer size in KiB; sixty-four when absent.
    pub buffer_size: Option<usize>,
    /// Disable the progress bar.
    pub no_progress: bool,
    /// Verbose output.
    pub verbose: bool,
    /// Memory cap in MiB.
    pub max_memory: usize,
    /// Compression methods to analyze; all when absent.
    pub methods: Option<Vec<String>>,
    /// Emit the per-member report section.
    pub detailed: bool,
}

/// A method name the validator accepts.
pub open spec fn method_name_ok(s: Seq<char>) -> bool {
    s == "store"@ || s == "deflate"@
}

/// All method names in the list are accepted ones.
pub open spec fn methods_ok(ms: Seq<String>) -> bool {
    forall|i: int| 0 <= i < ms.len() ==> method_name_ok(#[trigger] ms[i]@)
}

/// The numeric option rules, each bound inclusive: threads one through
/// two hundred fifty-six, buffer size one KiB through one GiB, memory
/// cap one MiB through one TiB.
pub open spec fn cli_numbers_ok(c: &Cli) -> bool {
    &&& (c.threads matches Some(t) ==> 1 <= t <= 256)
    &&& (c.buffer_size matches Some(b) ==> 1 <= b <= 1048576)
    &&& 1 <= c.max_memory <= 1048576
}

/// The whole option set is acceptable, given that the input path names
/// an existing regular file.
pub open spec fn cli_ok(c: &Cli, input_exists: bool, input_is_file: bool) -> bool {
    &&& input_exists
    &&& input_is_file
    &&& cli_numbers_ok(c)
    &&& (c.methods matches Some(ms) ==> methods_ok(ms@))
}

impl Cli {
    /// Checks every option rule, reporting the first breach. The two
    /// facts about the input path come from the caller, which is where
    /// the file system is consulted.
    pub fn validate(&self, input_exists: bool, input_is_file: bool) -> (r: Result<(), String>)
        ensures
            r is Ok <==> cli_ok(self, input_exists, input_is_file),
            !input_exists ==> (r matches Err(m) && m@ == "Input file does not exist"@),
            (input_exists && !input_is_file) ==> (r matches Err(m) && m@
                == "Input path is not a file"@),
            (input_exists && input_is_file && self.threads == Some(0usize)) ==> (r matches Err(m)
                && m@ == "Thread count must be greater than 0"@),
            (input_exists && input_is_file && (self.threads matches Some(t) && t > 256)) ==> (
            r matches Err(m) && m@ == "Thread count must not exceed 256"@),
            (input_exists && input_is_file && cli_numbers_ok(self) && !(
            self.methods matches Some(ms) ==> methods_ok(ms@))) ==> (r matches Err(m) && m@
                == "Unsupported compression method"@),
    {
        if !input_exists {
            return Err("Input file does not exist".to_owned());
        }
        if !input_is_file {
            return Err("Input path is not a file".to_owned());
        }
        match self.threads {
            Some(t) => {
                if t == 0 {
                    return Err("Thread count must be greater than 0".to_owned());
                }
                if t > 256 {
                    return Err("Thread count must not exceed 256".to_owned());
                }
            },
            None => {},
        }
        match self.buffer_size {
            Some(b) => {
                if b == 0 {
                    return Err("Buffer size must be greater than 0".to_owned());
                }
                if b > 1048576 {
                    return Err("Buffer size must not exceed 1GB".to_owned());
                }
            },
            None => {},
        }
        if self.max_memory == 0 {
            return Err("Maximum memory must be greater than 0".to_owned());
        }
        if self.max_memory > 1048576 {
            return Err("Maximum memory must not exceed 1TB".to_owned());
        }
        match &self.methods {
            Some(ms) => {
                let store = "store".to_owned();
                let deflate = "deflate".to_owned();
                let mut i: usize = 0;
                while i < ms.len()
                    invariant
                        input_exists,
                        input_is_file,
                        cli_numbers_ok(self),
                        self.methods == Some(*ms),
                        0 <= i <= ms@.len(),
                        forall|j: int| 0 <= j < i ==> method_name_ok(#[trigger] ms@[j]@),
                        store@ == "store"@,
                        deflate@ == "deflate"@,
                    decreases ms@.len() - i,
                {
                    let m = &ms[i];
                    if !(m.eq(&store) || m.eq(&deflate)) {
                        proof {
                            assert(!method_name_ok(ms@[i as int]@));
                        }
                        return Err("Unsupported compression method".to_owned());
                    }
                    i = i + 1;
                }
            },
            None => {},
        }
        Ok(())
    }
}

} // verus!
