//! What is said when a test file cannot be compiled or its module cannot be set up.
use crate::text::joined;
use vstd::prelude::*;
use vstd::string::*;

verus! {

/// A failure that ends the run, with the text of the error that caused it.
pub enum Failure {
    /// The directory for compiled tests cannot be made.
    BinDirectory(String),
    /// The deployment has no valid identifier.
    DeploymentId(String),
    /// The compiled module at `path` cannot be read.
    ModuleFile {
        /// Where the module was looked for.
        path: String,
        /// Why it cannot be read.
        error: String,
    },
    /// The compiled module is not valid.
    InvalidModule(String),
    /// The instance of the module cannot be set up.
    Instance(String),
}

impl Failure {
    /// What is said of the failure.
    pub open spec fn text(self) -> Seq<char> {
        match self {
            Failure::BinDirectory(error) =>
                "Something went wrong when trying to create `./tests/.bin/`: "@ + error@,
            Failure::DeploymentId(error) => "Could not create deployment id: "@ + error@,
            Failure::ModuleFile { path, error } => "Something went wrong while trying to read `"@
                + path@ + "`: "@ + error@,
            Failure::InvalidModule(error) => "Could not create ValidModule: "@ + error@,
            Failure::Instance(error) =>
                "Could not create WasmInstance from valid module with context: "@ + error@,
        }
    }

    /// What is said of the failure.
    pub fn message(&self) -> (message: String)
        ensures
            message@ == self.text(),
    {
        match self {
            Failure::BinDirectory(error) => joined(
                "Something went wrong when trying to create `./tests/.bin/`: ",
                error.as_str(),
            ),
            Failure::DeploymentId(error) => joined(
                "Could not create deployment id: ",
                error.as_str(),
            ),
            Failure::ModuleFile { path, error } => {
                let mut message: String = joined(
                    "Something went wrong while trying to read `",
                    path.as_str(),
                );
                message.append("`: ");
                message.append(error.as_str());
                message
            },
            Failure::InvalidModule(error) => joined(
                "Could not create ValidModule: ",
                error.as_str(),
            ),
            Failure::Instance(error) => joined(
                "Could not create WasmInstance from valid module with context: ",
                error.as_str(),
            ),
        }
    }
}

/// Whatever the error is, it stands in full behind the words of its kind of failure; and so does
/// the path of a module that cannot be read.
pub proof fn law_message_gives_the_error_in_full(path: String, error: String)
    ensures
        Failure::BinDirectory(error).text()
            == "Something went wrong when trying to create `./tests/.bin/`: "@ + error@,
        Failure::DeploymentId(error).text() == "Could not create deployment id: "@ + error@,
        (Failure::ModuleFile { path, error }).text()
            == "Something went wrong while trying to read `"@ + path@ + "`: "@ + error@,
        Failure::InvalidModule(error).text() == "Could not create ValidModule: "@ + error@,
        Failure::Instance(error).text()
            == "Could not create WasmInstance from valid module with context: "@ + error@,
{
}

/// Messages of one kind differ exactly as their errors do.
pub proof fn law_messages_differ_as_errors_do(one: String, other: String)
    ensures
        Failure::BinDirectory(one).text() == Failure::BinDirectory(other).text() <==> one@
            == other@,
        Failure::DeploymentId(one).text() == Failure::DeploymentId(other).text() <==> one@
            == other@,
        Failure::InvalidModule(one).text() == Failure::InvalidModule(other).text() <==> one@
            == other@,
        Failure::Instance(one).text() == Failure::Instance(other).text() <==> one@ == other@,
{
    lemma_same_start("Something went wrong when trying to create `./tests/.bin/`: "@, one@, other@);
    lemma_same_start("Could not create deployment id: "@, one@, other@);
    lemma_same_start("Could not create ValidModule: "@, one@, other@);
    lemma_same_start(
        "Could not create WasmInstance from valid module with context: "@,
        one@,
        other@,
    );
}

proof fn lemma_same_start(start: Seq<char>, one: Seq<char>, other: Seq<char>)
    ensures
        start + one == start + other <==> one == other,
{
    assert((start + one).skip(start.len() as int) =~= one);
    assert((start + other).skip(start.len() as int) =~= other);
}

} // verus!
