//! The local backend: clusters provisioned by an external container-based
//! runtime, driven through its command-line interface.
//!
//! The surrounding binary spawns the external process and performs the
//! filesystem work; this module decides everything the invocation needs —
//! the cluster's config directory, the command argument lists, the file
//! paths, and the generated cluster bootstrap descriptor that mounts the
//! private-registry authentication document into the node's filesystem —
//! each with an exact contract.

use vstd::prelude::*;
use vstd::string::*;

use crate::registry::names_of;
use crate::text::{spec_path_join, path_join};

verus! {

/// A local cluster to be created or deleted: its name, the private
/// registry repository configured for it (empty when none), and its
/// config directory once chosen.
pub struct Kind {
    /// Cluster name; for this backend also the backend handle.
    pub name: String,
    /// Private-registry repository, or empty when none is configured.
    pub ecr_repo: String,
    /// Config directory, chosen by `set_home`; empty until then.
    pub config_dir: String,
}

/// The config directory of a local cluster: `<home>/.nomake/<name>`.
pub open spec fn spec_local_config_dir(home: Seq<char>, name: Seq<char>) -> Seq<char> {
    home + "/.nomake/"@ + name
}

impl Kind {
    /// A new local cluster description; the config directory is chosen
    /// later, once the caller has resolved the user's home directory.
    pub fn new(name: &str, ecr_repo: &str) -> (k: Kind)
        ensures
            k.name@ == name@,
            k.ecr_repo@ == ecr_repo@,
            k.config_dir@ == Seq::<char>::empty(),
    {
        Kind {
            name: name.to_owned(),
            ecr_repo: ecr_repo.to_owned(),
            config_dir: String::new(),
        }
    }

    /// Chooses the config directory under the resolved home directory.
    pub fn set_home(&mut self, home: &str)
        ensures
            final(self).name == old(self).name,
            final(self).ecr_repo == old(self).ecr_repo,
            final(self).config_dir@ == spec_local_config_dir(home@, old(self).name@),
    {
        let mut dir = home.to_owned();
        dir.append("/.nomake/");
        dir.append(self.name.as_str());
        self.config_dir = dir;
    }

    /// The file the external runtime writes the cluster's kubeconfig to.
    pub fn kubeconfig_path(&self) -> (r: String)
        ensures
            r@ == spec_path_join(self.config_dir@, "kubeconfig"@),
    {
        path_join(self.config_dir.as_str(), "kubeconfig")
    }

    /// The file the registry authentication document is persisted to.
    pub fn docker_config_path(&self) -> (r: String)
        ensures
            r@ == spec_path_join(self.config_dir@, "docker_config"@),
    {
        path_join(self.config_dir.as_str(), "docker_config")
    }

    /// The file the generated bootstrap descriptor is persisted to.
    pub fn kind_config_path(&self) -> (r: String)
        ensures
            r@ == spec_path_join(self.config_dir@, "kind_config"@),
    {
        path_join(self.config_dir.as_str(), "kind_config")
    }

    /// The arguments of the external creation command, as
    /// [`spec_create_args`] lays them out.
    pub fn create_args(&self) -> (r: Vec<String>)
        ensures
            names_of(r@) == spec_create_args(*self),
    {
        let mut args: Vec<String> = Vec::new();
        args.push("create".to_owned());
        args.push("cluster".to_owned());
        if !self.name.as_str().is_empty() {
            args.push("--name".to_owned());
            args.push(self.name.clone());
            args.push("--kubeconfig".to_owned());
            args.push(self.kubeconfig_path());
        }
        if !self.ecr_repo.as_str().is_empty() {
            args.push("--config".to_owned());
            args.push(self.kind_config_path());
        }
        proof {
            assert(names_of(args@) =~= spec_create_args(*self));
        }
        args
    }

    /// The arguments of the external deletion command, as
    /// [`spec_delete_args`] lays them out.
    pub fn delete_args(&self) -> (r: Vec<String>)
        ensures
            names_of(r@) == spec_delete_args(*self),
    {
        let mut args: Vec<String> = Vec::new();
        args.push("delete".to_owned());
        args.push("cluster".to_owned());
        if !self.name.as_str().is_empty() {
            args.push("--name".to_owned());
            args.push(self.name.clone());
        }
        proof {
            assert(names_of(args@) =~= spec_delete_args(*self));
        }
        args
    }
}

/// Arguments of the creation command: `create cluster`, then — when the
/// cluster is named — a name flag and a kubeconfig output path flag, then
/// — when a private registry is configured — a flag pointing at the
/// generated bootstrap descriptor.
pub open spec fn spec_create_args(k: Kind) -> Seq<Seq<char>> {
    let base = seq!["create"@, "cluster"@];
    let named = if k.name@.len() > 0 {
        base + seq![
            "--name"@,
            k.name@,
            "--kubeconfig"@,
            spec_path_join(k.config_dir@, "kubeconfig"@),
        ]
    } else {
        base
    };
    if k.ecr_repo@.len() > 0 {
        named + seq!["--config"@, spec_path_join(k.config_dir@, "kind_config"@)]
    } else {
        named
    }
}

/// Arguments of the deletion command: `delete cluster`, then — when the
/// cluster is named — the name flag.
pub open spec fn spec_delete_args(k: Kind) -> Seq<Seq<char>> {
    let base = seq!["delete"@, "cluster"@];
    if k.name@.len() > 0 {
        base + seq!["--name"@, k.name@]
    } else {
        base
    }
}

/// The generated cluster bootstrap descriptor: a minimal one-node cluster
/// definition whose control-plane node mounts the generated authentication
/// document (host path) at the fixed credential location the node's
/// container runtime reads.
pub open spec fn spec_kind_config(docker_config_path: Seq<char>) -> Seq<char> {
    "kind: Cluster\napiVersion: kind.sigs.k8s.io/v1alpha3\nnodes:\n  - role: control-plane\n    extraMounts:\n      - containerPath: /var/lib/kubelet/config.json\n        hostPath: "@
        + docker_config_path + "\n"@
}

/// Renders the bootstrap descriptor for a given authentication-document
/// path.
pub fn kind_config_document(docker_config_path: &str) -> (r: String)
    ensures
        r@ == spec_kind_config(docker_config_path@),
{
    let mut out = String::new();
    out.append("kind: Cluster\napiVersion: kind.sigs.k8s.io/v1alpha3\nnodes:\n  - role: control-plane\n    extraMounts:\n      - containerPath: /var/lib/kubelet/config.json\n        hostPath: ");
    out.append(docker_config_path);
    out.append("\n");
    proof {
        assert(out@ =~= spec_kind_config(docker_config_path@));
    }
    out
}

} // verus!
