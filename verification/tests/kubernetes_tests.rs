//! Kubectl error classification: recognising a disconnected cluster from
//! stderr output, and the error predicates.

use portkiller_core::KubectlError;

#[test]
fn test_cluster_disconnect_detected() {
    let e = KubectlError::from_kubectl_error("Unable to connect to the server: dial tcp: timeout");
    assert!(e.is_cluster_not_connected());
}

#[test]
fn test_cluster_disconnect_detected_case_insensitively() {
    let e = KubectlError::from_kubectl_error("error: CONNECTION REFUSED by host");
    assert!(e.is_cluster_not_connected());
}

#[test]
fn test_unrecognised_error_is_execution_failure() {
    let e = KubectlError::from_kubectl_error("  something else went wrong  \n");
    assert!(!e.is_cluster_not_connected());
    match e {
        KubectlError::ExecutionFailed(m) => assert_eq!(m, "something else went wrong"),
        _ => panic!("expected ExecutionFailed"),
    }
}

#[test]
fn test_is_timeout() {
    assert!(KubectlError::Timeout.is_timeout());
    assert!(!KubectlError::ClusterNotConnected.is_timeout());
    assert!(!KubectlError::Timeout.is_cluster_not_connected());
}
