//! The errors that the exporter reports to its HTTP clients and in its log.

use vstd::prelude::*;

verus! {

/// A server that the exporter depends on could not be reached.
#[derive(Clone, Copy, Debug, PartialEq, Eq, Structural)]
pub enum AppError {
    /// The Nacos server did not answer.
    NacosUnreachable,
    /// The SRS server did not answer, or answered with what could not be read.
    SrsUnreachable,
}

impl AppError {
    /// The text the error is shown with, in the log and in the `tip` of an HTTP answer.
    pub fn message(&self) -> (m: &'static str)
        ensures
            *self == AppError::NacosUnreachable ==> m@
                == "Cannot reach Nacos server, Please check Nacos configuration and the Nacos server"@,
            *self == AppError::SrsUnreachable ==> m@
                == "Cannot reach SRS server, Please check SRS configuration and the SRS Server"@,
    {
        match self {
            AppError::NacosUnreachable => "Cannot reach Nacos server, Please check Nacos configuration and the Nacos server",
            AppError::SrsUnreachable => "Cannot reach SRS server, Please check SRS configuration and the SRS Server",
        }
    }

    /// The HTTP status the error is answered with: 500, Internal Server Error, for both.
    pub fn http_status(&self) -> (s: u16)
        ensures
            s == 500,
    {
        500
    }
}

} // verus!
