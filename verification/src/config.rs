//! The relay's configuration, and what is taken for everything that a
//! configuration file leaves out.

use crate::message::request::optional_text;
use vstd::prelude::*;

verus! {

#[derive(Debug)]
pub struct WorkerConfig {
    /// `single` for one event-loop thread, anything else for a pool.
    pub mode: String,
}

#[derive(Debug)]
pub struct LogConfig {
    /// One of `error`, `warn`, `info`, `debug`, `trace`.
    pub level: String,
    pub file: Option<String>,
    /// One of `never`, `hour`, `daily`.
    pub rolling: Option<String>,
}

#[derive(Debug)]
pub struct RtmpConfig {
    pub listen: String,
    pub performance: Option<String>,
}

#[derive(Debug)]
pub struct HttpFlv {
    pub enabled: bool,
}

#[derive(Debug)]
pub struct HttpHls {
    pub enabled: bool,
}

#[derive(Debug)]
pub struct HttpConfig {
    pub enabled: bool,
    pub listen: Option<String>,
    pub flv: Option<HttpFlv>,
    pub hls: Option<HttpHls>,
}

#[derive(Debug)]
pub struct ApiConfig {
    pub enabled: bool,
    pub listen: Option<String>,
}

#[derive(Debug)]
pub struct Config {
    pub worker: Option<WorkerConfig>,
    pub log: Option<LogConfig>,
    pub rtmp: Option<RtmpConfig>,
    pub http: Option<HttpConfig>,
    pub api: Option<ApiConfig>,
}

/// What a [`LogConfig`] stands for.
pub struct LogView {
    pub level: Seq<char>,
    pub file: Option<Seq<char>>,
    pub rolling: Option<Seq<char>>,
}

/// What an [`RtmpConfig`] stands for.
pub struct RtmpView {
    pub listen: Seq<char>,
    pub performance: Option<Seq<char>>,
}

/// What an [`HttpConfig`] stands for.
pub struct HttpView {
    pub enabled: bool,
    pub listen: Option<Seq<char>>,
    pub flv: Option<HttpFlv>,
    pub hls: Option<HttpHls>,
}

/// What an [`ApiConfig`] stands for.
pub struct ApiView {
    pub enabled: bool,
    pub listen: Option<Seq<char>>,
}

/// What a [`Config`] stands for. The worker's part is its mode.
pub struct ConfigView {
    pub worker: Option<Seq<char>>,
    pub log: Option<LogView>,
    pub rtmp: Option<RtmpView>,
    pub http: Option<HttpView>,
    pub api: Option<ApiView>,
}

impl View for WorkerConfig {
    type V = Seq<char>;

    open spec fn view(&self) -> Seq<char> {
        self.mode@
    }
}

impl View for LogConfig {
    type V = LogView;

    open spec fn view(&self) -> LogView {
        LogView {
            level: self.level@,
            file: optional_text(self.file),
            rolling: optional_text(self.rolling),
        }
    }
}

impl View for RtmpConfig {
    type V = RtmpView;

    open spec fn view(&self) -> RtmpView {
        RtmpView { listen: self.listen@, performance: optional_text(self.performance) }
    }
}

impl View for HttpConfig {
    type V = HttpView;

    open spec fn view(&self) -> HttpView {
        HttpView {
            enabled: self.enabled,
            listen: optional_text(self.listen),
            flv: self.flv,
            hls: self.hls,
        }
    }
}

impl View for ApiConfig {
    type V = ApiView;

    open spec fn view(&self) -> ApiView {
        ApiView { enabled: self.enabled, listen: optional_text(self.listen) }
    }
}

impl View for Config {
    type V = ConfigView;

    open spec fn view(&self) -> ConfigView {
        ConfigView {
            worker: match self.worker {
                Some(w) => Some(w@),
                None => None,
            },
            log: match self.log {
                Some(l) => Some(l@),
                None => None,
            },
            rtmp: match self.rtmp {
                Some(r) => Some(r@),
                None => None,
            },
            http: match self.http {
                Some(h) => Some(h@),
                None => None,
            },
            api: match self.api {
                Some(a) => Some(a@),
                None => None,
            },
        }
    }
}

/// The text, or the text to take in its place.
pub open spec fn text_or(given: Option<Seq<char>>, default: &str) -> Option<Seq<char>> {
    match given {
        Some(t) => Some(t),
        None => Some(default@),
    }
}

impl LogView {
    pub open spec fn default() -> LogView {
        LogView { level: "info"@, file: None, rolling: None }
    }
}

impl RtmpView {
    pub open spec fn default() -> RtmpView {
        RtmpView { listen: "0.0.0.0:1935"@, performance: Some("middle"@) }
    }

    pub open spec fn filled(self) -> RtmpView {
        RtmpView { performance: text_or(self.performance, "middle"), ..self }
    }
}

impl HttpView {
    pub open spec fn default() -> HttpView {
        HttpView { enabled: false, listen: Some("0.0.0.0:8080"@), flv: None, hls: None }
    }

    pub open spec fn filled(self) -> HttpView {
        HttpView { listen: text_or(self.listen, "0.0.0.0:8080"), ..self }
    }
}

impl ApiView {
    pub open spec fn default() -> ApiView {
        ApiView { enabled: false, listen: Some("0.0.0.0:1888"@) }
    }

    pub open spec fn filled(self) -> ApiView {
        ApiView { listen: text_or(self.listen, "0.0.0.0:1888"), ..self }
    }
}

impl ConfigView {
    /// The configuration that an empty file stands for.
    pub open spec fn default() -> ConfigView {
        ConfigView {
            worker: Some("single"@),
            log: Some(LogView::default()),
            rtmp: Some(RtmpView::default()),
            http: Some(HttpView::default()),
            api: Some(ApiView::default()),
        }
    }

    /// The configuration with every part that is left out taken from the
    /// default, and in every part that is given the settings that are left
    /// out.
    pub open spec fn filled(self) -> ConfigView {
        ConfigView {
            worker: match self.worker {
                Some(w) => Some(w),
                None => Some("single"@),
            },
            log: match self.log {
                Some(l) => Some(l),
                None => Some(LogView::default()),
            },
            rtmp: match self.rtmp {
                Some(r) => Some(r.filled()),
                None => Some(RtmpView::default()),
            },
            http: match self.http {
                Some(h) => Some(h.filled()),
                None => Some(HttpView::default()),
            },
            api: match self.api {
                Some(a) => Some(a.filled()),
                None => Some(ApiView::default()),
            },
        }
    }
}

impl WorkerConfig {
    pub fn default() -> (r: Self)
        ensures
            r@ == "single"@,
    {
        WorkerConfig { mode: "single".to_owned() }
    }

    pub fn fill_default(&mut self)
        ensures
            final(self)@ == old(self)@,
    {
    }
}

impl LogConfig {
    pub fn default() -> (r: Self)
        ensures
            r@ == LogView::default(),
    {
        LogConfig { level: "info".to_owned(), file: None, rolling: None }
    }

    pub fn fill_default(&mut self)
        ensures
            final(self)@ == old(self)@,
    {
    }
}

impl RtmpConfig {
    pub fn default() -> (r: Self)
        ensures
            r@ == RtmpView::default(),
    {
        RtmpConfig { listen: "0.0.0.0:1935".to_owned(), performance: Some("middle".to_owned()) }
    }

    pub fn fill_default(&mut self)
        ensures
            final(self)@ == old(self)@.filled(),
    {
        if let None = self.performance {
            self.performance = Some("middle".to_owned());
        }
    }
}

impl HttpConfig {
    pub fn default() -> (r: Self)
        ensures
            r@ == HttpView::default(),
    {
        HttpConfig {
            enabled: false,
            listen: Some("0.0.0.0:8080".to_owned()),
            flv: None,
            hls: None,
        }
    }

    pub fn fill_default(&mut self)
        ensures
            final(self)@ == old(self)@.filled(),
    {
        if let None = self.listen {
            self.listen = Some("0.0.0.0:8080".to_owned());
        }
    }
}

impl ApiConfig {
    pub fn default() -> (r: Self)
        ensures
            r@ == ApiView::default(),
    {
        ApiConfig { enabled: false, listen: Some("0.0.0.0:1888".to_owned()) }
    }

    pub fn fill_default(&mut self)
        ensures
            final(self)@ == old(self)@.filled(),
    {
        if let None = self.listen {
            self.listen = Some("0.0.0.0:1888".to_owned());
        }
    }
}

impl Config {
    pub fn default() -> (r: Self)
        ensures
            r@ == ConfigView::default(),
    {
        Config {
            worker: Some(WorkerConfig::default()),
            log: Some(LogConfig::default()),
            rtmp: Some(RtmpConfig::default()),
            http: Some(HttpConfig::default()),
            api: Some(ApiConfig::default()),
        }
    }

    /// Takes from the default what the configuration leaves out.
    pub fn fill_default(&mut self)
        ensures
            final(self)@ == old(self)@.filled(),
    {
        let mut worker: Option<WorkerConfig> = None;
        core::mem::swap(&mut worker, &mut self.worker);
        self.worker = match worker {
            None => Some(WorkerConfig::default()),
            Some(mut w) => {
                w.fill_default();
                Some(w)
            },
        };
        let mut log: Option<LogConfig> = None;
        core::mem::swap(&mut log, &mut self.log);
        self.log = match log {
            None => Some(LogConfig::default()),
            Some(mut l) => {
                l.fill_default();
                Some(l)
            },
        };
        let mut rtmp: Option<RtmpConfig> = None;
        core::mem::swap(&mut rtmp, &mut self.rtmp);
        self.rtmp = match rtmp {
            None => Some(RtmpConfig::default()),
            Some(mut r) => {
                r.fill_default();
                Some(r)
            },
        };
        let mut http: Option<HttpConfig> = None;
        core::mem::swap(&mut http, &mut self.http);
        self.http = match http {
            None => Some(HttpConfig::default()),
            Some(mut h) => {
                h.fill_default();
                Some(h)
            },
        };
        let mut api: Option<ApiConfig> = None;
        core::mem::swap(&mut api, &mut self.api);
        self.api = match api {
            None => Some(ApiConfig::default()),
            Some(mut a) => {
                a.fill_default();
                Some(a)
            },
        };
    }
}

} // verus!
