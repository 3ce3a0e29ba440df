use vstd::prelude::*;

verus! {

/// The error taxonomy of a run.
#[derive(Debug)]
pub enum MyError {
    /// Connection or DDL failure: fatal, the run stops.
    Setup(String),
    /// A fault-injection control call failed: the current table is
    /// abandoned.
    FaultInjection(String),
    /// A DML or transaction statement failed outside the window where such
    /// a failure is classified; the run stops.
    Statement(String),
}

/// Mathematical value of a `MyError`.
pub ghost enum MyErrorV {
    Setup(Seq<char>),
    FaultInjection(Seq<char>),
    Statement(Seq<char>),
}

impl View for MyError {
    type V = MyErrorV;

    open spec fn view(&self) -> MyErrorV {
        match self {
            MyError::Setup(s) => MyErrorV::Setup(s@),
            MyError::FaultInjection(s) => MyErrorV::FaultInjection(s@),
            MyError::Statement(s) => MyErrorV::Statement(s@),
        }
    }
}

/// The diagnostic text an error carries.
pub open spec fn spec_error_message(e: MyErrorV) -> Seq<char> {
    match e {
        MyErrorV::Setup(s) => s,
        MyErrorV::FaultInjection(s) => s,
        MyErrorV::Statement(s) => s,
    }
}

impl MyError {
    /// The diagnostic text this error carries.
    pub fn message(&self) -> (r: &String)
        ensures
            r@ == spec_error_message(self@),
    {
        match self {
            MyError::Setup(s) => s,
            MyError::FaultInjection(s) => s,
            MyError::Statement(s) => s,
        }
    }
}

} // verus!
