use vstd::prelude::*;

verus! {

/// The application settings that are plain integers and flags.
#[derive(Clone, Copy, Debug, PartialEq, Eq, Structural)]
pub struct AppDesc {
    /// The number of worker threads; 0 leaves the choice to the engine.
    pub threads: i32,
    /// The number of frames to run; 0 runs until the application quits.
    pub frames: i32,
    /// Whether the engine serves its state over HTTP.
    pub enable_rest: bool,
    /// The HTTP port of that service; 0 leaves the choice to the engine.
    pub port: u16,
    /// Whether the engine collects statistics periodically.
    pub enable_monitor: bool,
}

/// Application settings, built up by chained setters and handed to the
/// engine's main loop when the application runs.
pub struct App {
    desc: AppDesc,
}

impl App {
    pub closed spec fn spec_desc(&self) -> AppDesc {
        self.desc
    }

    /// Settings that leave every choice to the engine.
    pub fn new() -> (r: App)
        ensures
            r.spec_desc() == (AppDesc {
                threads: 0,
                frames: 0,
                enable_rest: false,
                port: 0,
                enable_monitor: false,
            }),
    {
        App {
            desc: AppDesc { threads: 0, frames: 0, enable_rest: false, port: 0, enable_monitor: false },
        }
    }

    /// The current settings.
    pub fn desc(&self) -> (r: AppDesc)
        ensures
            r == self.spec_desc(),
    {
        self.desc
    }

    /// Sets the number of worker threads.
    pub fn set_threads(&mut self, threads: i32) -> (r: &mut Self)
        ensures
            r.spec_desc() == (AppDesc { threads, ..old(self).spec_desc() }),
            *final(self) == *final(r),
    {
        self.desc.threads = threads;
        self
    }

    /// Sets the number of frames to run.
    pub fn set_frames(&mut self, frames: i32) -> (r: &mut Self)
        ensures
            r.spec_desc() == (AppDesc { frames, ..old(self).spec_desc() }),
            *final(self) == *final(r),
    {
        self.desc.frames = frames;
        self
    }

    /// Serves the engine's state over HTTP on `port`.
    pub fn enable_rest(&mut self, port: u16) -> (r: &mut Self)
        ensures
            r.spec_desc() == (AppDesc { enable_rest: true, port, ..old(self).spec_desc() }),
            *final(self) == *final(r),
    {
        self.desc.enable_rest = true;
        self.desc.port = port;
        self
    }

    /// Turns periodic statistics on or off.
    pub fn enable_monitor(&mut self, enable: bool) -> (r: &mut Self)
        ensures
            r.spec_desc() == (AppDesc { enable_monitor: enable, ..old(self).spec_desc() }),
            *final(self) == *final(r),
    {
        self.desc.enable_monitor = enable;
        self
    }
}

} // verus!
