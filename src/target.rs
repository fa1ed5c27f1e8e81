//! Target resolution: which concrete implementation serves each operation on
//! a local host. A target is one platform; each operation is served by the
//! first layer of the platform's chain that implements it: the platform's own
//! module, then its operating-system family's, then the POSIX defaults.

use vstd::prelude::*;
use vstd::string::StringExecFns;
use crate::codec::{same_text, Operation};
use crate::error::Error;

verus! {

/// The operating-system families.
#[derive(Debug, Clone, Copy, PartialEq, Eq)]
pub enum OsFamily {
    Linux,
    Bsd,
    Darwin,
}

/// The platforms that a local host can be.
#[derive(Debug, Clone, Copy, PartialEq, Eq)]
pub enum Platform {
    Centos,
    Debian,
    Fedora,
    Freebsd,
    Macos,
    Redhat,
    Ubuntu,
}

/// One layer of implementations.
#[derive(Debug, Clone, Copy, PartialEq, Eq)]
pub enum Layer {
    Platform(Platform),
    Family(OsFamily),
    Default,
}

/// The implementation bound to a local host: one platform, chosen once.
#[derive(Debug, Clone, Copy, PartialEq, Eq)]
pub struct Target {
    pub platform: Platform,
}

pub open spec fn family_of(p: Platform) -> OsFamily {
    match p {
        Platform::Freebsd => OsFamily::Bsd,
        Platform::Macos => OsFamily::Darwin,
        _ => OsFamily::Linux,
    }
}

/// The layers of a platform, most specific first.
pub open spec fn chain_of(p: Platform) -> Seq<Layer> {
    seq![Layer::Platform(p), Layer::Family(family_of(p)), Layer::Default]
}

/// Whether `layer` has its own implementation of `op`.
pub open spec fn implements(layer: Layer, op: Operation) -> bool {
    match layer {
        Layer::Default => match op {
            Operation::FileGetOwner | Operation::FileGetMode | Operation::PackageDefaultProvider
            | Operation::TelemetryInit => false,
            _ => true,
        },
        Layer::Family(f) => match op {
            Operation::FileGetOwner | Operation::FileGetMode | Operation::TelemetryInit => true,
            Operation::ServiceAction => f == OsFamily::Linux,
            _ => false,
        },
        Layer::Platform(p) => match op {
            Operation::PackageDefaultProvider | Operation::TelemetryInit => true,
            Operation::ServiceAction => p == Platform::Redhat || p == Platform::Centos,
            _ => false,
        },
    }
}

/// The platform that an operating-system name and a distribution name
/// denote, if any.
pub open spec fn platform_named(os: Seq<char>, distro: Seq<char>) -> Option<Platform> {
    if os == "macos"@ {
        Some(Platform::Macos)
    } else if os == "freebsd"@ {
        Some(Platform::Freebsd)
    } else if os == "linux"@ {
        if distro == "centos"@ {
            Some(Platform::Centos)
        } else if distro == "debian"@ {
            Some(Platform::Debian)
        } else if distro == "fedora"@ {
            Some(Platform::Fedora)
        } else if distro == "redhat"@ {
            Some(Platform::Redhat)
        } else if distro == "ubuntu"@ {
            Some(Platform::Ubuntu)
        } else {
            None
        }
    } else {
        None
    }
}

impl OsFamily {
    pub fn of(p: Platform) -> (r: OsFamily)
        ensures
            r == family_of(p),
    {
        match p {
            Platform::Freebsd => OsFamily::Bsd,
            Platform::Macos => OsFamily::Darwin,
            _ => OsFamily::Linux,
        }
    }
}

impl Layer {
    /// Whether this layer has its own implementation of `op`.
    pub fn implements(&self, op: Operation) -> (r: bool)
        ensures
            r == implements(*self, op),
    {
        match self {
            Layer::Default => match op {
                Operation::FileGetOwner | Operation::FileGetMode | Operation::PackageDefaultProvider
                | Operation::TelemetryInit => false,
                _ => true,
            },
            Layer::Family(f) => match op {
                Operation::FileGetOwner | Operation::FileGetMode | Operation::TelemetryInit => true,
                Operation::ServiceAction => match f {
                    OsFamily::Linux => true,
                    _ => false,
                },
                _ => false,
            },
            Layer::Platform(p) => match op {
                Operation::PackageDefaultProvider | Operation::TelemetryInit => true,
                Operation::ServiceAction => match p {
                    Platform::Redhat | Platform::Centos => true,
                    _ => false,
                },
                _ => false,
            },
        }
    }
}

impl Target {
    /// Binds the target for the platform that the probes of the local
    /// machine named; an unknown platform is an error.
    pub fn resolve(os: &str, distro: &str) -> (r: Result<Target, Error>)
        ensures
            match platform_named(os@, distro@) {
                Some(p) => r == Ok::<Target, Error>(Target { platform: p }),
                None => r matches Err(Error::Generic(_)),
            },
    {
        let platform = if same_text(os, "macos") {
            Platform::Macos
        } else if same_text(os, "freebsd") {
            Platform::Freebsd
        } else if same_text(os, "linux") {
            if same_text(distro, "centos") {
                Platform::Centos
            } else if same_text(distro, "debian") {
                Platform::Debian
            } else if same_text(distro, "fedora") {
                Platform::Fedora
            } else if same_text(distro, "redhat") {
                Platform::Redhat
            } else if same_text(distro, "ubuntu") {
                Platform::Ubuntu
            } else {
                return Err(Error::Generic(String::from_str("Unsupported Linux distribution")));
            }
        } else {
            return Err(Error::Generic(String::from_str("Unsupported operating system")));
        };
        Ok(Target { platform })
    }

    /// The layers of this target, most specific first.
    pub fn chain(&self) -> (r: Vec<Layer>)
        ensures
            r@ == chain_of(self.platform),
    {
        let r = vec![Layer::Platform(self.platform), Layer::Family(OsFamily::of(self.platform)), Layer::Default];
        assert(r@ =~= chain_of(self.platform));
        r
    }

    /// The layer whose implementation of `op` this target uses: the first of
    /// its chain that implements it.
    pub fn layer_for(&self, op: Operation) -> (r: Layer)
        ensures
            exists|i: int|
                0 <= i < chain_of(self.platform).len() && chain_of(self.platform)[i] == r
                    && implements(r, op) && forall|j: int|
                    0 <= j < i ==> !implements(#[trigger] chain_of(self.platform)[j], op),
    {
        let chain = self.chain();
        let mut i: usize = 0;
        while i < chain.len()
            invariant
                i <= chain@.len(),
                chain@ == chain_of(self.platform),
                forall|j: int| 0 <= j < i ==> !implements(#[trigger] chain@[j], op),
            decreases chain@.len() - i,
        {
            if chain[i].implements(op) {
                return chain[i];
            }
            i = i + 1;
        }
        proof {
            assert(!implements(chain@[0], op));
            assert(!implements(chain@[1], op));
            assert(!implements(chain@[2], op));
        }
        Layer::Default
    }
}

} // verus!
