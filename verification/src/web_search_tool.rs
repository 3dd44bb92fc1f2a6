//! How the web-search tool presents itself to the model.
use vstd::prelude::*;

verus! {

/// Namespace of the tool when it is presented as a namespace.
pub const WEB_NAMESPACE: &'static str = "web";

/// Name of the tool inside its namespace.
pub const RUN_TOOL_NAME: &'static str = "run";

/// Name of the tool when it is presented as a plain function.
pub const WEB_SEARCH_TOOL_NAME: &'static str = "web_search";

/// Whether the tool is offered as `web.run` or as the function `web_search`.
#[derive(Clone, Copy, Debug, Eq, PartialEq, Structural)]
pub enum WebSearchToolPresentation {
    Namespace,
    Function,
}

/// The name of a tool, with its namespace when it has one.
#[derive(Debug, Eq, PartialEq)]
pub struct ToolName {
    pub namespace: Option<String>,
    pub name: String,
}

impl WebSearchToolPresentation {
    /// The name under which the tool is offered: `run` in the namespace `web`, or the
    /// plain name `web_search`.
    pub fn tool_name(self) -> (res: ToolName)
        ensures
            self == WebSearchToolPresentation::Namespace ==> (res.namespace matches Some(ns) && ns@
                == WEB_NAMESPACE@ && res.name@ == RUN_TOOL_NAME@),
            self == WebSearchToolPresentation::Function ==> res.namespace is None && res.name@
                == WEB_SEARCH_TOOL_NAME@,
    {
        match self {
            WebSearchToolPresentation::Namespace => ToolName {
                namespace: Some(String::from_str(WEB_NAMESPACE)),
                name: String::from_str(RUN_TOOL_NAME),
            },
            WebSearchToolPresentation::Function => ToolName {
                namespace: None,
                name: String::from_str(WEB_SEARCH_TOOL_NAME),
            },
        }
    }
}

} // verus!
