//! The control plane's configuration: where the engine lives on disk and
//! where its HTTP API listens. Supplied once at startup by the embedding
//! application instead of being scattered through the code as literals.

use vstd::prelude::*;

verus! {

/// How to launch the engine and how to reach its API.
pub struct EngineConfig {
    /// Path of the interpreter or executable to spawn.
    pub executable: String,
    /// Path of the engine script handed to the executable.
    pub script: String,
    /// Working directory the engine process is started in.
    pub working_dir: String,
    /// Base URL of the engine's HTTP API, without a trailing slash.
    pub base_url: String,
}

impl EngineConfig {
    /// Bundle the launch and API parameters.
    pub fn new(executable: String, script: String, working_dir: String, base_url: String) -> (c:
        EngineConfig)
        ensures
            c.executable@ == executable@,
            c.script@ == script@,
            c.working_dir@ == working_dir@,
            c.base_url@ == base_url@,
    {
        EngineConfig { executable, script, working_dir, base_url }
    }

    /// The engine's activation endpoint.
    pub fn start_url(&self) -> (r: String)
        ensures
            r@ == self.base_url@ + "/api/start"@,
    {
        self.base_url.clone().concat("/api/start")
    }

    /// The engine's deactivation endpoint.
    pub fn stop_url(&self) -> (r: String)
        ensures
            r@ == self.base_url@ + "/api/stop"@,
    {
        self.base_url.clone().concat("/api/stop")
    }

    /// The engine's status endpoint.
    pub fn status_url(&self) -> (r: String)
        ensures
            r@ == self.base_url@ + "/api/status"@,
    {
        self.base_url.clone().concat("/api/status")
    }

    /// The endpoint a blur-settings push goes to.
    pub fn blur_url(&self) -> (r: String)
        ensures
            r@ == self.base_url@ + "/api/blur"@,
    {
        self.base_url.clone().concat("/api/blur")
    }

    /// The endpoint an AI-settings push goes to.
    pub fn ai_url(&self) -> (r: String)
        ensures
            r@ == self.base_url@ + "/api/ai"@,
    {
        self.base_url.clone().concat("/api/ai")
    }
}

} // verus!
