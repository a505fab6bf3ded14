//! The runner's configuration and its startup validation.
use vstd::prelude::*;

verus! {

/// The runner's configuration, loaded once at startup.
pub struct Config {
    pub lab_name: String,
    pub api_key: String,
    pub api_url: String,
    pub sep_course_id: u32,
    pub lab_assignment_id: u32,
    pub docker_image: String,
    pub docker_cmd: Vec<String>,
    pub lab_timeout: u64,
    pub fetch_filter: Vec<String>,
}

/// A required configuration field that is empty or zero. Fatal at startup,
/// before the poll loop begins.
pub enum ConfigError {
    EmptyLabName,
    EmptyApiKey,
    EmptyApiUrl,
    CourseIdNotSet,
    AssignmentIdNotSet,
    ImageNotSet,
    CommandNotSet,
    TimeoutNotSet,
}

impl ConfigError {
    /// The diagnostic line reported for this error.
    pub fn message(&self) -> (r: String)
        ensures
            r@ == self.message_spec(),
    {
        match self {
            ConfigError::EmptyLabName => "LAB_NAME is empty in config.json".to_owned(),
            ConfigError::EmptyApiKey => "API_KEY is empty in config.json".to_owned(),
            ConfigError::EmptyApiUrl => "API_URL is empty in config.json".to_owned(),
            ConfigError::CourseIdNotSet => "SEP_COURSE_ID is not set in config.json".to_owned(),
            ConfigError::AssignmentIdNotSet => "LAB3_ASSIGNMENT_ID is not set in config.json".to_owned(),
            ConfigError::ImageNotSet => "DOCKER_IMAGE is not set in config.json".to_owned(),
            ConfigError::CommandNotSet => "DOCKER_CMD is not set in config.json".to_owned(),
            ConfigError::TimeoutNotSet => "LAB_TIMEOUT is not set or is zero in config.json".to_owned(),
        }
    }

    /// The diagnostic line as a sequence of characters.
    pub open spec fn message_spec(&self) -> Seq<char> {
        match self {
            ConfigError::EmptyLabName => "LAB_NAME is empty in config.json"@,
            ConfigError::EmptyApiKey => "API_KEY is empty in config.json"@,
            ConfigError::EmptyApiUrl => "API_URL is empty in config.json"@,
            ConfigError::CourseIdNotSet => "SEP_COURSE_ID is not set in config.json"@,
            ConfigError::AssignmentIdNotSet => "LAB3_ASSIGNMENT_ID is not set in config.json"@,
            ConfigError::ImageNotSet => "DOCKER_IMAGE is not set in config.json"@,
            ConfigError::CommandNotSet => "DOCKER_CMD is not set in config.json"@,
            ConfigError::TimeoutNotSet => "LAB_TIMEOUT is not set or is zero in config.json"@,
        }
    }
}

/// The error the configuration is rejected with, checking the fields in a
/// fixed order, or nothing when every required field is present.
pub open spec fn validate_config_spec(c: &Config) -> Result<(), ConfigError> {
    if c.lab_name@.len() == 0 {
        Err(ConfigError::EmptyLabName)
    } else if c.api_key@.len() == 0 {
        Err(ConfigError::EmptyApiKey)
    } else if c.api_url@.len() == 0 {
        Err(ConfigError::EmptyApiUrl)
    } else if c.sep_course_id == 0 {
        Err(ConfigError::CourseIdNotSet)
    } else if c.lab_assignment_id == 0 {
        Err(ConfigError::AssignmentIdNotSet)
    } else if c.docker_image@.len() == 0 {
        Err(ConfigError::ImageNotSet)
    } else if c.docker_cmd@.len() == 0 {
        Err(ConfigError::CommandNotSet)
    } else if c.lab_timeout == 0 {
        Err(ConfigError::TimeoutNotSet)
    } else {
        Ok(())
    }
}

/// Checks that every required configuration field is set, reporting the first
/// missing one. A configuration that fails here must never reach the poll loop.
pub fn validate_config(config: &Config) -> (r: Result<(), ConfigError>)
    ensures
        r == validate_config_spec(config),
{
    if config.lab_name.as_str().is_empty() {
        Err(ConfigError::EmptyLabName)
    } else if config.api_key.as_str().is_empty() {
        Err(ConfigError::EmptyApiKey)
    } else if config.api_url.as_str().is_empty() {
        Err(ConfigError::EmptyApiUrl)
    } else if config.sep_course_id == 0 {
        Err(ConfigError::CourseIdNotSet)
    } else if config.lab_assignment_id == 0 {
        Err(ConfigError::AssignmentIdNotSet)
    } else if config.docker_image.as_str().is_empty() {
        Err(ConfigError::ImageNotSet)
    } else if config.docker_cmd.len() == 0 {
        Err(ConfigError::CommandNotSet)
    } else if config.lab_timeout == 0 {
        Err(ConfigError::TimeoutNotSet)
    } else {
        Ok(())
    }
}

/// The submission-source base URL used when the configuration names none.
pub fn default_api_url() -> (r: String)
    ensures
        r@ == "https://oc.sjtu.edu.cn"@,
{
    "https://oc.sjtu.edu.cn".to_owned()
}

/// The workflow states accepted for grading when the configuration names none:
/// freshly submitted work only.
pub fn default_fetch_filter() -> (r: Vec<String>)
    ensures
        r@.len() == 1,
        r@[0]@ == "submitted"@,
{
    let mut v: Vec<String> = Vec::new();
    v.push("submitted".to_owned());
    v
}

} // verus!
