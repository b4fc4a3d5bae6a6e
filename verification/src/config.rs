//! Access to a configuration's state root and artifacts.
use vstd::prelude::*;

use crate::model::{PortConfig, ArtifactSpec};
use crate::artifacts::catalog_lookup;

verus! {

impl PortConfig {
    /// The directory that runtime state is kept under, when one is set.
    pub fn state_root(&self) -> (r: Option<&str>)
        ensures
            match r {
                Some(p) => self.state_root matches Some(root) && p@ == root@,
                None => self.state_root is None,
            },
    {
        match &self.state_root {
            Some(root) => Some(root.as_str()),
            None => None,
        }
    }

    /// Sets the directory that runtime state is kept under.
    pub fn set_state_root(&mut self, path: String)
        ensures
            final(self).state_root == Some(path),
            final(self).artifacts == old(self).artifacts,
            final(self).control_planes == old(self).control_planes,
            final(self).hosts == old(self).hosts,
            final(self).nodes == old(self).nodes,
            final(self).host_groups == old(self).host_groups,
            final(self).machines == old(self).machines,
            final(self).clusters == old(self).clusters,
            final(self).k3s_clusters == old(self).k3s_clusters,
    {
        self.state_root = Some(path);
    }

    /// The configuration with its state root set to `path`.
    pub fn with_state_root(self, path: String) -> (r: Self)
        ensures
            r == (PortConfig { state_root: Some(path), ..self }),
    {
        let mut config = self;
        config.set_state_root(path);
        config
    }

    /// The kernel or guest image named `name`; kernels are searched first.
    pub fn artifact(&self, name: &str) -> (r: Option<&ArtifactSpec>)
        ensures
            match r {
                Some(spec) => catalog_lookup(self.artifacts, name@) matches Some((_, s)) && s
                    == *spec,
                None => catalog_lookup(self.artifacts, name@) is None,
            },
    {
        self.artifacts.lookup(name)
    }
}

} // verus!
