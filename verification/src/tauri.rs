//! The host-introspection service: request/response reads of the host's
//! configuration, bundled assets and runtime metrics, each answered from a
//! snapshot. The host capability is modeled as plain data — a configuration
//! record and a path-to-asset table — so the same service serves a real
//! host and a test mock alike.

use vstd::prelude::*;
use crate::ErrorKind;
use crate::visitor::str_eq;

verus! {

/// The host application's configuration, as shipped to clients.
#[derive(Debug, PartialEq, Eq)]
pub struct Config {
    pub product_name: String,
    pub version: Option<String>,
}

/// Two configurations with the same content.
pub open spec fn config_eq(a: Config, b: Config) -> bool {
    &&& a.product_name@ == b.product_name@
    &&& match (a.version, b.version) {
        (Some(x), Some(y)) => x@ == y@,
        (None, None) => true,
        _ => false,
    }
}

impl Clone for Config {
    fn clone(&self) -> (r: Self)
        ensures
            config_eq(r, *self),
    {
        Config {
            product_name: self.product_name.clone(),
            version: match &self.version {
                Some(v) => Some(v.clone()),
                None => None,
            },
        }
    }
}

/// One bundled asset: its bytes and its content type.
#[derive(Debug, PartialEq, Eq)]
pub struct Asset {
    pub bytes: Vec<u8>,
    pub mime: String,
}

/// Two assets with the same content.
pub open spec fn asset_eq(a: Asset, b: Asset) -> bool {
    a.bytes@ == b.bytes@ && a.mime@ == b.mime@
}

impl Clone for Asset {
    fn clone(&self) -> (r: Self)
        ensures
            asset_eq(r, *self),
    {
        let bytes = self.bytes.clone();
        proof {
            assert(bytes@ =~= self.bytes@);
        }
        Asset { bytes, mime: self.mime.clone() }
    }
}

/// The host's runtime metrics. Timestamps are nanoseconds since an epoch
/// the host chooses.
#[derive(Clone, Copy, Debug, PartialEq, Eq, Structural)]
pub struct Metrics {
    pub initialized_at: Option<u64>,
    pub ready_at: Option<u64>,
}

impl Default for Metrics {
    /// Metrics before the host has reported anything.
    fn default() -> (r: Self)
        ensures
            r.initialized_at is None,
            r.ready_at is None,
    {
        Metrics { initialized_at: None, ready_at: None }
    }
}

/// What the service reads of the host: its configuration and its asset
/// resolver, as a path-keyed table.
pub struct AppHost {
    pub config: Config,
    pub assets: Vec<(String, Asset)>,
}

/// The first asset registered under `path`, if any.
pub open spec fn spec_asset(assets: Seq<(String, Asset)>, path: Seq<char>) -> Option<Asset>
    decreases assets.len(),
{
    if assets.len() == 0 {
        None
    } else if assets[0].0@ == path {
        Some(assets[0].1)
    } else {
        spec_asset(assets.drop_first(), path)
    }
}

/// The request/response endpoints for config, asset and metrics reads.
pub struct TauriService {
    pub app_handle: AppHost,
    pub metrics: Metrics,
}

impl TauriService {
    /// A deep copy of the current host configuration; never fails.
    pub fn get_config(&self) -> (r: Config)
        ensures
            config_eq(r, self.app_handle.config),
    {
        self.app_handle.config.clone()
    }

    /// The asset at `path`, or `InvalidArgument` exactly when the host
    /// resolves no asset there.
    pub fn get_asset(&self, path: &str) -> (r: Result<Asset, ErrorKind>)
        ensures
            r is Ok <==> spec_asset(self.app_handle.assets@, path@) is Some,
            match (r, spec_asset(self.app_handle.assets@, path@)) {
                (Ok(got), Some(a)) => asset_eq(got, a),
                (Err(e), None) => e == ErrorKind::InvalidArgument,
                _ => false,
            },
    {
        let n = self.app_handle.assets.len();
        let mut idx: usize = 0;
        proof {
            assert(self.app_handle.assets@.subrange(0, n as int) =~= self.app_handle.assets@);
        }
        while idx < n
            invariant
                n == self.app_handle.assets@.len(),
                0 <= idx <= n,
                spec_asset(self.app_handle.assets@, path@) == spec_asset(
                    self.app_handle.assets@.subrange(idx as int, n as int),
                    path@,
                ),
            decreases n - idx,
        {
            let hit = str_eq(self.app_handle.assets[idx].0.as_str(), path);
            proof {
                let suf = self.app_handle.assets@.subrange(idx as int, n as int);
                assert(suf[0] == self.app_handle.assets@[idx as int]);
                assert(suf.drop_first() =~= self.app_handle.assets@.subrange(idx + 1, n as int));
            }
            if hit {
                return Ok(self.app_handle.assets[idx].1.clone());
            }
            idx = idx + 1;
        }
        proof {
            assert(self.app_handle.assets@.subrange(n as int, n as int) =~= Seq::<(
                String,
                Asset,
            )>::empty());
        }
        Err(ErrorKind::InvalidArgument)
    }

    /// A snapshot of the shared metrics: exactly their state at this call;
    /// never fails. (The multi-reader lease of the shared record is the
    /// borrow itself here; the snapshot never outlives it.)
    pub fn get_metrics(&self) -> (r: Metrics)
        ensures
            r == self.metrics,
    {
        self.metrics
    }
}

} // verus!
