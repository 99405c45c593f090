use vstd::prelude::*;

verus! {

#[verifier::external_type_specification]
#[verifier::external_body]
pub struct ExTeraError(tera::Error);

#[verifier::external_type_specification]
#[verifier::external_body]
pub struct ExIoError(std::io::Error);

/// Every way a scaffolding action can fail.
#[derive(Debug)]
pub enum MvpError {
    /// The template engine could not render: unknown template, malformed
    /// markup or a variable that the context lacks.
    Tera(tera::Error),
    /// A filesystem operation or the project-creation command failed.
    Io(std::io::Error),
    /// A validation failure, described in words.
    Custom(String),
}

/// What the logic can observe of an error: its kind, and the message of a
/// custom one.
pub enum ErrorModel {
    Template,
    Io,
    Custom(Seq<char>),
}

impl View for MvpError {
    type V = ErrorModel;

    open spec fn view(&self) -> ErrorModel {
        match self {
            MvpError::Tera(_) => ErrorModel::Template,
            MvpError::Io(_) => ErrorModel::Io,
            MvpError::Custom(m) => ErrorModel::Custom(m@),
        }
    }
}

/// The model of a `Result<(), MvpError>`.
pub open spec fn outcome_model(r: Result<(), MvpError>) -> Result<(), ErrorModel> {
    match r {
        Ok(()) => Ok(()),
        Err(e) => Err(e@),
    }
}

/// The message reported when the project-creation command does not succeed.
pub open spec fn creation_failure_message(name: Seq<char>) -> Seq<char> {
    "Failed to create project '"@ + name + "'"@
}

/// Relies on the `Display` impl of `tera::Error`, for the text of a report.
#[verifier::external_body]
fn tera_error_text(e: &tera::Error) -> String {
    e.to_string()
}

/// Relies on the `Display` impl of `std::io::Error`, for the text of a report.
#[verifier::external_body]
fn io_error_text(e: &std::io::Error) -> String {
    e.to_string()
}

impl MvpError {
    /// A custom error that carries `msg`.
    pub fn custom(msg: &str) -> (r: MvpError)
        ensures
            r@ == ErrorModel::Custom(msg@),
    {
        MvpError::Custom(msg.to_owned())
    }

    /// The error for a project-creation command that exited unsuccessfully.
    pub fn project_creation_failed(name: &str) -> (r: MvpError)
        ensures
            r@ == ErrorModel::Custom(creation_failure_message(name@)),
    {
        let mut m = String::from_str("Failed to create project '");
        m.append(name);
        m.append("'");
        MvpError::Custom(m)
    }

    /// The underlying engine failure, for a rendering error.
    pub fn tera_cause(&self) -> (r: Option<&tera::Error>)
        ensures
            r is Some <==> self is Tera,
            self is Tera ==> r == Some(&self->Tera_0),
    {
        match self {
            MvpError::Tera(e) => Some(e),
            _ => None,
        }
    }

    /// The underlying filesystem failure, for an I/O error.
    pub fn io_cause(&self) -> (r: Option<&std::io::Error>)
        ensures
            r is Some <==> self is Io,
            self is Io ==> r == Some(&self->Io_0),
    {
        match self {
            MvpError::Io(e) => Some(e),
            _ => None,
        }
    }

    /// The text shown to the user: the kind of the failure, then its detail.
    pub fn message(&self) -> (r: String)
        ensures
            self is Custom ==> r@ == "Custom Error: "@ + self->Custom_0@,
            self is Tera ==> r@.len() >= 12 && r@.subrange(0, 12) == "Tera Error: "@,
            self is Io ==> r@.len() >= 10 && r@.subrange(0, 10) == "IO Error: "@,
    {
        match self {
            MvpError::Tera(e) => {
                let mut m = String::from_str("Tera Error: ");
                let detail = tera_error_text(e);
                m.append(detail.as_str());
                proof {
                    reveal_strlit("Tera Error: ");
                    assert(m@.subrange(0, 12) =~= "Tera Error: "@);
                }
                m
            },
            MvpError::Io(e) => {
                let mut m = String::from_str("IO Error: ");
                let detail = io_error_text(e);
                m.append(detail.as_str());
                proof {
                    reveal_strlit("IO Error: ");
                    assert(m@.subrange(0, 10) =~= "IO Error: "@);
                }
                m
            },
            MvpError::Custom(msg) => {
                let mut m = String::from_str("Custom Error: ");
                m.append(msg.as_str());
                m
            },
        }
    }
}

} // verus!
