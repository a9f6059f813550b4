//! Kubernetes-specific error types and the classifier that recognises a
//! disconnected cluster from kubectl's stderr output.

use vstd::prelude::*;

use crate::text::contains_chars;
use crate::text::is_substring_of;
use crate::text::lower_of;
use crate::text::lowercase;
use crate::text::str_chars;
use crate::text::trim_of;
use crate::text::trimmed;

verus! {

/// Errors that can occur during kubectl operations.
#[derive(Debug)]
pub enum KubectlError {
    KubectlNotFound,
    SocatNotFound,
    ClusterNotConnected,
    ExecutionFailed(String),
    Timeout,
    ParsingFailed(String),
    ConnectionNotFound(String),
    PortConflict(u16),
    ProcessError(String),
    ConfigError(String),
    Io(String),
}

/// The lowercased stderr output carries one of the fragments that kubectl
/// emits when it cannot reach the cluster.
pub open spec fn indicates_cluster_disconnect(stderr: Seq<char>) -> bool {
    let low = lower_of(stderr);
    ||| is_substring_of("unable to connect"@, low)
    ||| is_substring_of("connection refused"@, low)
    ||| is_substring_of("no configuration"@, low)
    ||| is_substring_of("dial tcp"@, low)
    ||| is_substring_of("couldn't get current server api"@, low)
    ||| is_substring_of("the connection to the server"@, low)
}

impl KubectlError {
    /// Returns true if this error indicates the cluster is not connected.
    pub fn is_cluster_not_connected(&self) -> (r: bool)
        ensures
            r == (*self is ClusterNotConnected),
    {
        match self {
            KubectlError::ClusterNotConnected => true,
            _ => false,
        }
    }

    /// Returns true if this error is a timeout.
    pub fn is_timeout(&self) -> (r: bool)
        ensures
            r == (*self is Timeout),
    {
        match self {
            KubectlError::Timeout => true,
            _ => false,
        }
    }

    /// Detects cluster connection errors from kubectl stderr output; anything
    /// unrecognised becomes an execution failure carrying the trimmed output.
    pub fn from_kubectl_error(stderr: &str) -> (r: Self)
        ensures
            indicates_cluster_disconnect(stderr@) ==> r is ClusterNotConnected,
            !indicates_cluster_disconnect(stderr@) ==> (r matches KubectlError::ExecutionFailed(m)
                && m@ == trim_of(stderr@)),
    {
        let low = lowercase(stderr);
        let lc = str_chars(low.as_str());
        let disconnect = contains_chars(&lc, &str_chars("unable to connect")) || contains_chars(
            &lc,
            &str_chars("connection refused"),
        ) || contains_chars(&lc, &str_chars("no configuration")) || contains_chars(
            &lc,
            &str_chars("dial tcp"),
        ) || contains_chars(&lc, &str_chars("couldn't get current server api")) || contains_chars(
            &lc,
            &str_chars("the connection to the server"),
        );
        if disconnect {
            KubectlError::ClusterNotConnected
        } else {
            KubectlError::ExecutionFailed(trimmed(stderr))
        }
    }
}

} // verus!
