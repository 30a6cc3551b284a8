//! The client's configuration and the per-thread results of a measurement.

use vstd::prelude::*;

use std::collections::VecDeque;

verus! {

/// The log level filter of the `log` crate, carried in the configuration.
#[verifier::external_type_specification]
#[verifier::external_body]
pub struct ExLevelFilter(log::LevelFilter);

/// What one measurement thread measured.
#[derive(Clone)]
pub struct Measurement {
    /// Download samples, `(time_ns, bytes)` per chunk.
    pub measurements: Vec<(u64, u64)>,
    pub failed: bool,
    pub thread_id: usize,
    /// Upload samples, `(time_ns, bytes)` per chunk.
    pub upload_measurements: Vec<(u64, u64)>,
    /// The signed result that the server sent, where one was asked for.
    pub envelope: Option<String>,
}

/// The abstract value of a [`Measurement`].
pub struct MeasurementView {
    pub measurements: Seq<(u64, u64)>,
    pub failed: bool,
    pub thread_id: usize,
    pub upload_measurements: Seq<(u64, u64)>,
    pub envelope: Option<Seq<char>>,
}

/// The view of an optional string.
pub open spec fn opt_string_view(s: Option<String>) -> Option<Seq<char>> {
    match s {
        Some(t) => Some(t@),
        None => None,
    }
}

impl View for Measurement {
    type V = MeasurementView;

    open spec fn view(&self) -> MeasurementView {
        MeasurementView {
            measurements: self.measurements@,
            failed: self.failed,
            thread_id: self.thread_id,
            upload_measurements: self.upload_measurements@,
            envelope: opt_string_view(self.envelope),
        }
    }
}

/// A copy of an optional string.
pub fn copy_opt_string(s: &Option<String>) -> (r: Option<String>)
    ensures
        opt_string_view(r) == opt_string_view(*s),
{
    match s {
        Some(t) => Some(t.clone()),
        None => None,
    }
}

impl Measurement {
    /// A copy of this measurement.
    pub fn copy(&self) -> (r: Measurement)
        ensures
            r@ == self@,
    {
        Measurement {
            measurements: crate::samples::copy_samples(&self.measurements),
            failed: self.failed,
            thread_id: self.thread_id,
            upload_measurements: crate::samples::copy_samples(&self.upload_measurements),
            envelope: copy_opt_string(&self.envelope),
        }
    }
}

/// The samples that all threads collected, one run per thread, in the order
/// in which the threads handed them in.
pub struct SharedStats {
    pub download_measurements: Vec<Vec<(u64, u64)>>,
    pub upload_measurements: Vec<Vec<(u64, u64)>>,
}

impl SharedStats {
    /// Statistics with no runs yet.
    pub fn new() -> (s: SharedStats)
        ensures
            s.download_measurements.len() == 0,
            s.upload_measurements.len() == 0,
    {
        SharedStats { download_measurements: Vec::new(), upload_measurements: Vec::new() }
    }
}

impl SharedStats {
    /// Adds one thread's download samples as the last run.
    pub fn add_download_run(&mut self, samples: &VecDeque<(u64, u64)>)
        ensures
            final(self).download_measurements.len() == old(self).download_measurements.len() + 1,
            forall|i: int|
                0 <= i < old(self).download_measurements.len() ==> #[trigger] final(self).download_measurements[i]@ == old(self).download_measurements[i]@,
            final(self).download_measurements[old(self).download_measurements.len() as int]@
                == samples@,
            final(self).upload_measurements@ == old(self).upload_measurements@,
    {
        let run = crate::samples::copy_queue(samples);
        self.download_measurements.push(run);
    }

    /// Adds one thread's upload samples as the last run.
    pub fn add_upload_run(&mut self, samples: &VecDeque<(u64, u64)>)
        ensures
            final(self).upload_measurements.len() == old(self).upload_measurements.len() + 1,
            forall|i: int|
                0 <= i < old(self).upload_measurements.len() ==> #[trigger] final(self).upload_measurements[i]@ == old(self).upload_measurements[i]@,
            final(self).upload_measurements[old(self).upload_measurements.len() as int]@
                == samples@,
            final(self).download_measurements@ == old(self).download_measurements@,
    {
        let run = crate::samples::copy_queue(samples);
        self.upload_measurements.push(run);
    }
}

impl Default for SharedStats {
    /// Statistics with no runs yet.
    fn default() -> (s: SharedStats)
        ensures
            s.download_measurements.len() == 0,
            s.upload_measurements.len() == 0,
    {
        SharedStats::new()
    }
}

/// The client's settings for one measurement.
#[derive(Clone, Debug)]
pub struct ClientConfig {
    pub use_tls: bool,
    pub use_websocket: bool,
    pub graphs: bool,
    pub raw_output: bool,
    pub thread_count: usize,
    pub log: Option<log::LevelFilter>,
    pub server: Option<String>,
    pub port: u16,
    pub tls_port: u16,
    pub x_nettest_client: String,
    pub control_server: String,
    pub save_results: bool,
    pub signed_result: bool,
    pub client_uuid: Option<String>,
    pub git_hash: Option<String>,
}

impl ClientConfig {
    /// The port that the measurement connects to: the TLS port when TLS is
    /// on, else the plain port.
    pub fn server_port(&self) -> (p: u16)
        ensures
            p == if self.use_tls { self.tls_port } else { self.port },
    {
        if !self.use_tls {
            self.port
        } else {
            self.tls_port
        }
    }

    /// Whether the server is asked for a signed result: only when results are
    /// saved and a signed result is wanted.
    pub fn wants_signed_result(&self) -> (b: bool)
        ensures
            b == (self.save_results && self.signed_result),
    {
        self.save_results && self.signed_result
    }
}

} // verus!
