//! Plain records shared by the service: configuration, users, agents and the
//! request and response bodies of the agent endpoints.
use vstd::prelude::*;

use crate::text::text_eq;

verus! {

/// Settings the service reads at start-up.
#[derive(Debug, Clone)]
pub struct AppConfig {
    pub database_url: String,
    pub port: u16,
}

/// Body of an error reply.
pub struct ErrorResponse {
    /// Error status
    pub success: bool,
    /// Error message
    pub message: String,
    /// Error code for programmatic handling
    pub error_code: Option<String>,
}

/// A user row: a numeric id and the user's chain address.
#[derive(Debug)]
pub struct UserDb {
    pub id: i64,
    pub address: String,
}

#[derive(Debug, Clone)]
pub struct GetAgentsForPromptRequest {
    pub prompt: String,
}

#[derive(Debug, Clone)]
pub struct GetResponseFromAgentsRequest {
    pub agent_ids: Vec<i64>,
    pub prompt: String,
    pub tx_hashes: Vec<String>,
}

#[derive(Debug, Clone)]
pub struct GetResponseFromAgentsResponse {
    pub agent_responses: Vec<AgentResponse>,
    pub success: bool,
}

#[derive(Debug, Clone)]
pub struct AgentResponse {
    pub agent_id: i64,
    pub prompt: String,
    pub response: String,
}

/// The category a dataset, and the agent built on it, belongs to.
#[derive(Debug, Clone, Copy, PartialEq, Eq, Structural)]
pub enum AgentCategory {
    Web3,
    Financial,
    Analytics,
    Healthcare,
    IoT,
    Gaming,
    ConsumerData,
    SocialMedia,
    Environmental,
}

impl AgentCategory {
    /// The display name of the category.
    pub open spec fn name(self) -> Seq<char> {
        match self {
            AgentCategory::Web3 => "Web3"@,
            AgentCategory::Financial => "Financial"@,
            AgentCategory::Analytics => "Analytics"@,
            AgentCategory::Healthcare => "Healthcare"@,
            AgentCategory::IoT => "IoT"@,
            AgentCategory::Gaming => "Gaming"@,
            AgentCategory::ConsumerData => "Consumer Data"@,
            AgentCategory::SocialMedia => "Social Media"@,
            AgentCategory::Environmental => "Environmental"@,
        }
    }

    /// Returns the display name of the category.
    pub fn to_string(&self) -> (r: String)
        ensures
            r@ == self.name(),
    {
        let name = match self {
            AgentCategory::Web3 => "Web3",
            AgentCategory::Financial => "Financial",
            AgentCategory::Analytics => "Analytics",
            AgentCategory::Healthcare => "Healthcare",
            AgentCategory::IoT => "IoT",
            AgentCategory::Gaming => "Gaming",
            AgentCategory::ConsumerData => "Consumer Data",
            AgentCategory::SocialMedia => "Social Media",
            AgentCategory::Environmental => "Environmental",
        };
        name.to_owned()
    }

    /// Reads a category from its display name; any other text gives `None`.
    pub fn from_string(category: &str) -> (r: Option<AgentCategory>)
        ensures
            match r {
                Some(c) => c.name() == category@,
                None => forall|c: AgentCategory| #[trigger] c.name() != category@,
            },
    {
        if text_eq(category, "Web3") {
            Some(AgentCategory::Web3)
        } else if text_eq(category, "Financial") {
            Some(AgentCategory::Financial)
        } else if text_eq(category, "Analytics") {
            Some(AgentCategory::Analytics)
        } else if text_eq(category, "Healthcare") {
            Some(AgentCategory::Healthcare)
        } else if text_eq(category, "IoT") {
            Some(AgentCategory::IoT)
        } else if text_eq(category, "Gaming") {
            Some(AgentCategory::Gaming)
        } else if text_eq(category, "Consumer Data") {
            Some(AgentCategory::ConsumerData)
        } else if text_eq(category, "Social Media") {
            Some(AgentCategory::SocialMedia)
        } else if text_eq(category, "Environmental") {
            Some(AgentCategory::Environmental)
        } else {
            assert forall|c: AgentCategory| #[trigger] c.name() != category@ by {
                match c {
                    AgentCategory::Web3 => {},
                    AgentCategory::Financial => {},
                    AgentCategory::Analytics => {},
                    AgentCategory::Healthcare => {},
                    AgentCategory::IoT => {},
                    AgentCategory::Gaming => {},
                    AgentCategory::ConsumerData => {},
                    AgentCategory::SocialMedia => {},
                    AgentCategory::Environmental => {},
                }
            }
            None
        }
    }
}

} // verus!
