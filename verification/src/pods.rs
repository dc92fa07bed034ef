//! Listing pods: what is handed to the one list call.

use crate::kube_ext::{
    all_pods, default_list_params, list_params_view, pod_api_view, unrestricted, ApiView,
};
use kube::api::ListParams;
use kube::{Api, Client};
use vstd::prelude::*;

verus! {

/// A list call that is ready to be made: the handle to list with and the
/// parameters of the call.
pub struct PodsCall {
    pub api: Api<k8s_openapi::api::core::v1::Pod>,
    pub params: ListParams,
}

/// Prepares the listing of pods from the outcome of connecting. A failure
/// to connect is handed on as it came, and nothing is prepared. With a
/// client, the call lists the pods of the whole cluster with that client:
/// no namespace is chosen, and no selector, limit or version narrows the
/// list.
pub fn prepare_pods(connected: Result<Client, String>) -> (prepared: Result<PodsCall, String>)
    ensures
        match connected {
            Err(message) => prepared == Err::<PodsCall, String>(message),
            Ok(client) => prepared matches Ok(call) && pod_api_view(call.api) == (ApiView {
                client,
                url: "/api/v1/pods"@,
            }) && list_params_view(call.params) == unrestricted(),
        },
{
    match connected {
        Err(message) => Err(message),
        Ok(client) => Ok(PodsCall { api: all_pods(client), params: default_list_params() }),
    }
}

} // verus!
