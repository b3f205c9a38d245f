//! The endpoint of a plugin and its announcement to the kubelet.

use crate::api::{RegisterRequest, RegisterRequestView};
use crate::plugin::PluginConfig;
use std::path::PathBuf;
use vstd::prelude::*;

verus! {

/// The version of the device plugin protocol.
pub const VERSION: &'static str = "v1beta1";

/// The file name of the socket on which the kubelet takes registrations. It
/// lies in the directory of the plugin sockets.
pub const KUBELET_SOCK: &'static str = "kubelet.sock";

/// A path of the file system, as `std::path::PathBuf` holds it. The library
/// keeps such a path and hands it back; it does not look into it.
#[verifier::external_type_specification]
#[verifier::external_body]
pub struct ExPathBuf(PathBuf);

/// Where a plugin serves: the directory of the plugin sockets and the file
/// name of its own socket in that directory.
#[derive(Debug)]
pub struct GenericDevicePluginServer {
    dir_path: PathBuf,
    socket_name: String,
}

/// What a [`GenericDevicePluginServer`] holds.
pub struct Endpoint {
    pub dir_path: PathBuf,
    pub socket_name: Seq<char>,
}

impl View for GenericDevicePluginServer {
    type V = Endpoint;

    closed spec fn view(&self) -> Endpoint {
        Endpoint { dir_path: self.dir_path, socket_name: self.socket_name@ }
    }
}

/// The announcement of a plugin with settings `config` that serves on the
/// socket named `socket_name`.
pub open spec fn announcement(socket_name: Seq<char>, config: PluginConfig) -> RegisterRequestView {
    RegisterRequestView {
        version: VERSION@,
        endpoint: socket_name,
        resource_name: config.resource_name@,
        options: config.options(),
    }
}

impl GenericDevicePluginServer {
    /// A server for the socket `socket_name` in the directory `dir_path`.
    pub fn new(dir_path: PathBuf, socket_name: String) -> (server: Self)
        ensures
            server@ == (Endpoint { dir_path, socket_name: socket_name@ }),
    {
        GenericDevicePluginServer { dir_path, socket_name }
    }

    /// The directory of the plugin sockets.
    pub fn dir_path(&self) -> (dir_path: &PathBuf)
        ensures
            *dir_path == self@.dir_path,
    {
        &self.dir_path
    }

    /// The file name of the plugin's socket.
    pub fn socket_name(&self) -> (socket_name: &String)
        ensures
            socket_name@ == self@.socket_name,
    {
        &self.socket_name
    }

    /// The announcement to send to the kubelet's registration socket: the
    /// name of this server's socket as the endpoint, the protocol version,
    /// and the resource name and options of `config`, as they are.
    pub fn register_request(&self, config: &PluginConfig) -> (request: RegisterRequest)
        ensures
            request@ == announcement(self@.socket_name, *config),
    {
        RegisterRequest {
            version: VERSION.to_owned(),
            endpoint: self.socket_name.clone(),
            resource_name: config.resource_name.clone(),
            options: config.options(),
        }
    }
}

} // verus!
