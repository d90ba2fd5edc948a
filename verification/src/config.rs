use crate::text::{parse_decimal_u16, parse_u16};
use vstd::prelude::*;

verus! {

/// Where images come from and which port a launched container exposes.
/// Built once at startup and only read afterwards.
#[derive(Clone, Debug, PartialEq, Eq)]
pub struct Config {
    pub registry: String,
    pub repository: String,
    pub port: u16,
}

/// The mathematical content of a [`Config`].
pub struct ConfigView {
    pub registry: Seq<char>,
    pub repository: Seq<char>,
    pub port: u16,
}

impl View for Config {
    type V = ConfigView;

    open spec fn view(&self) -> ConfigView {
        ConfigView { registry: self.registry@, repository: self.repository@, port: self.port }
    }
}

/// The full name of the image that `tag` selects: `registry/repository:tag`.
pub open spec fn image_reference(config: ConfigView, tag: Seq<char>) -> Seq<char> {
    config.registry + "/"@ + config.repository + ":"@ + tag
}

impl Config {
    /// Builds the configuration from the values of the environment
    /// variables `DOCKER_REGISTRY`, `DOCKER_REPOSITORY` and `DOCKER_PORT`,
    /// each `None` where the variable is not set. There is no configuration
    /// where one of them is missing or the port is no number of sixteen
    /// bits: the process is not to start then.
    pub fn from_env(
        registry: Option<String>,
        repository: Option<String>,
        port: Option<String>,
    ) -> (config: Config)
        requires
            registry is Some,
            repository is Some,
            port is Some,
            parse_u16(port->0@) is Some,
        ensures
            config@ == (ConfigView {
                registry: registry->0@,
                repository: repository->0@,
                port: parse_u16(port->0@)->0,
            }),
    {
        let port = port.unwrap();
        Config {
            registry: registry.unwrap(),
            repository: repository.unwrap(),
            port: parse_decimal_u16(port.as_str()).unwrap(),
        }
    }

    /// Names the image that `tag` selects.
    pub fn image_reference(&self, tag: &str) -> (image: String)
        ensures
            image@ == image_reference(self@, tag@),
    {
        let mut image = self.registry.clone();
        image.append("/");
        image.append(self.repository.as_str());
        image.append(":");
        image.append(tag);
        image
    }
}

} // verus!
