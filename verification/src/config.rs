//! The configuration of the program: which models to ask and where the
//! remote server is. It is made once, from values that the caller has
//! already read, and handed to what needs it.

use crate::endpoint::{
    goes_local, local_endpoint, remote_endpoint, resolve, same_server, url_text, Endpoint,
};
use crate::request::{default_model, default_model_text};
use crate::text::line_texts;
use vstd::prelude::*;
use vstd::string::StringExecFns;

verus! {

/// The settings that a user may give. Each may be missing.
#[derive(Debug)]
pub struct Config {
    /// The model for text generation.
    pub model: Option<String>,
    /// The model for image analysis.
    pub vision_model: Option<String>,
    /// The host of the remote server.
    pub remote_host: Option<String>,
}

/// The model asked about images when the user names none.
pub open spec fn default_vision_model_text() -> Seq<char> {
    "llava"@
}

/// A setting, or `otherwise` where it is missing.
pub open spec fn setting_or(setting: Option<String>, otherwise: Seq<char>) -> Seq<char> {
    match setting {
        Some(value) => value@,
        None => otherwise,
    }
}

/// The text of an optional setting.
pub open spec fn setting_text(setting: Option<String>) -> Option<Seq<char>> {
    match setting {
        Some(value) => Some(value@),
        None => None,
    }
}

/// The lines that show a configuration.
pub open spec fn configuration_text(config: Config) -> Seq<Seq<char>> {
    seq![
        "=== Current Configuration ==="@,
        "Remote Server IP: "@ + setting_or(config.remote_host, "Not set in .env file"@),
        "Model: "@ + setting_or(config.model, default_model_text() + " (default)"@),
        "Local Server: "@ + url_text(local_endpoint()),
        "Images Directory: ./images/"@,
        "================================"@,
    ]
}

impl Config {
    /// The model for text generation: the configured one, or the default.
    pub fn text_model(&self) -> (model: String)
        ensures
            model@ == setting_or(self.model, default_model_text()),
    {
        match &self.model {
            Some(model) => model.clone(),
            None => default_model(),
        }
    }

    /// The model for image analysis: the configured one, or the default.
    pub fn image_model(&self) -> (model: String)
        ensures
            model@ == setting_or(self.vision_model, default_vision_model_text()),
    {
        match &self.vision_model {
            Some(model) => model.clone(),
            None => String::from_str("llava"),
        }
    }

    /// The endpoint to call and the one to fall back on: see [`resolve`].
    pub fn endpoints(&self, explicit_local: bool) -> (choice: (Endpoint, Option<Endpoint>))
        ensures
            goes_local(explicit_local, setting_text(self.remote_host)) ==> {
                &&& choice.0@ == local_endpoint()
                &&& choice.1 is None
            },
            !goes_local(explicit_local, setting_text(self.remote_host)) ==> {
                &&& self.remote_host matches Some(host)
                &&& choice.0@ == remote_endpoint(host@)
                &&& choice.1 matches Some(fallback)
                &&& fallback@ == local_endpoint()
                &&& !same_server(choice.0@, fallback@)
            },
    {
        match &self.remote_host {
            Some(host) => resolve(explicit_local, Some(host.as_str())),
            None => resolve(explicit_local, None),
        }
    }

    /// The lines that show the configuration.
    pub fn lines(&self) -> (lines: Vec<String>)
        ensures
            line_texts(lines@) == configuration_text(*self),
    {
        let mut remote = String::from_str("Remote Server IP: ");
        match &self.remote_host {
            Some(host) => remote.append(host.as_str()),
            None => remote.append("Not set in .env file"),
        }
        let mut model = String::from_str("Model: ");
        match &self.model {
            Some(name) => model.append(name.as_str()),
            None => {
                model.append("llama3.2");
                model.append(" (default)");
                assert(model@ =~= "Model: "@ + (default_model_text() + " (default)"@));
            },
        }
        let mut local = String::from_str("Local Server: ");
        let url = Endpoint::local().url();
        local.append(url.as_str());
        let mut lines: Vec<String> = Vec::new();
        lines.push(String::from_str("=== Current Configuration ==="));
        lines.push(remote);
        lines.push(model);
        lines.push(local);
        lines.push(String::from_str("Images Directory: ./images/"));
        lines.push(String::from_str("================================"));
        assert(line_texts(lines@) =~= configuration_text(*self));
        lines
    }
}

} // verus!
