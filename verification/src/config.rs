//! The settings of a build and the parameters of one declaration.

use vstd::prelude::*;
use crate::declaration::text_option;
use crate::text::{copy_text, same_text};

verus! {

/// The settings that hold for a whole build. They are resolved once, by the
/// caller, and handed to the pipeline.
#[derive(Clone, Debug, PartialEq, Eq)]
pub struct Config {
    /// The bearer credential; needed unless offline.
    pub credential: Option<String>,
    /// The base endpoint, where it is not the default one.
    pub base_url: Option<String>,
    /// The offline switch of this run.
    pub offline: bool,
    /// The switch that disables the network for good, whatever `offline` says.
    pub no_network: bool,
}

pub struct ConfigView {
    pub credential: Option<Seq<char>>,
    pub base_url: Option<Seq<char>>,
    pub offline: bool,
    pub no_network: bool,
}

impl View for Config {
    type V = ConfigView;

    open spec fn view(&self) -> ConfigView {
        ConfigView {
            credential: text_option(self.credential),
            base_url: text_option(self.base_url),
            offline: self.offline,
            no_network: self.no_network,
        }
    }
}

impl ConfigView {
    /// Offline mode: no network call is permitted.
    pub open spec fn is_offline(self) -> bool {
        self.offline || self.no_network
    }

    /// The base endpoint: the configured one, or the default.
    pub open spec fn endpoint(self) -> Seq<char> {
        match self.base_url {
            Some(url) => url,
            None => "https://api.openai.com/v1"@,
        }
    }
}

/// Whether the value of the offline setting switches offline mode on: only
/// the value `1` does.
pub open spec fn switches_offline(setting: Option<Seq<char>>) -> bool {
    setting == Some("1"@)
}

impl Config {
    /// Resolves the settings from the values found in the environment:
    /// `OPENAI_API_KEY`, `OPENAI_BASE_URL`, `OPENAI_OFFLINE`, and the switch
    /// that disables the network.
    pub fn resolve(
        credential: Option<String>,
        base_url: Option<String>,
        offline_setting: Option<String>,
        no_network: bool,
    ) -> (config: Config)
        ensures
            config@ == (ConfigView {
                credential: text_option(credential),
                base_url: text_option(base_url),
                offline: switches_offline(text_option(offline_setting)),
                no_network,
            }),
    {
        let offline = match &offline_setting {
            Some(value) => same_text(value.as_str(), "1"),
            None => false,
        };
        Config { credential, base_url, offline, no_network }
    }

    /// Whether the pipeline works from the cache alone.
    pub fn is_offline(&self) -> (r: bool)
        ensures
            r == self@.is_offline(),
    {
        self.offline || self.no_network
    }

    /// The base endpoint.
    pub fn endpoint(&self) -> (r: String)
        ensures
            r@ == self@.endpoint(),
    {
        match &self.base_url {
            Some(url) => copy_text(url.as_str()),
            None => copy_text("https://api.openai.com/v1"),
        }
    }
}

/// One argument of the annotation: a name, and the string it is set to where
/// it has the form `name = "string"`.
#[derive(Clone, Debug, PartialEq, Eq)]
pub struct Argument {
    pub name: String,
    pub value: Option<String>,
}

pub struct ArgumentView {
    pub name: Seq<char>,
    pub value: Option<Seq<char>>,
}

impl View for Argument {
    type V = ArgumentView;

    open spec fn view(&self) -> ArgumentView {
        ArgumentView { name: self.name@, value: text_option(self.value) }
    }
}

/// The view of each argument of a list.
pub open spec fn argument_views(arguments: Seq<Argument>) -> Seq<ArgumentView> {
    Seq::new(arguments.len(), |i: int| arguments[i]@)
}

/// What the caller asks for one declaration.
#[derive(Clone, Debug, PartialEq, Eq)]
pub struct GenerationParams {
    /// The model to ask, where it is not the default one.
    pub model: Option<String>,
    /// A free-text hint for the generation.
    pub hint: Option<String>,
}

pub struct GenerationParamsView {
    pub model: Option<Seq<char>>,
    pub hint: Option<Seq<char>>,
}

impl View for GenerationParams {
    type V = GenerationParamsView;

    open spec fn view(&self) -> GenerationParamsView {
        GenerationParamsView { model: text_option(self.model), hint: text_option(self.hint) }
    }
}

impl GenerationParamsView {
    /// The model to ask: the given one, or the default.
    pub open spec fn model_name(self) -> Seq<char> {
        match self.model {
            Some(model) => model,
            None => "gpt-4o-mini"@,
        }
    }
}

/// The string that the last argument of the given name is set to. Arguments
/// of that name that are set to no string do not count.
pub open spec fn last_value(arguments: Seq<ArgumentView>, name: Seq<char>) -> Option<Seq<char>>
    decreases arguments.len(),
{
    if arguments.len() == 0 {
        None
    } else if arguments.last().name == name && arguments.last().value is Some {
        arguments.last().value
    } else {
        last_value(arguments.drop_last(), name)
    }
}

/// The parameters that a list of arguments gives: `model` and `prompt`, the
/// last of each; arguments of other names are ignored.
pub open spec fn params_of(arguments: Seq<ArgumentView>) -> GenerationParamsView {
    GenerationParamsView {
        model: last_value(arguments, "model"@),
        hint: last_value(arguments, "prompt"@),
    }
}

impl GenerationParams {
    /// Picks the parameters out of a list of arguments.
    pub fn from_arguments(arguments: &Vec<Argument>) -> (params: GenerationParams)
        ensures
            params@ == params_of(argument_views(arguments@)),
    {
        let ghost all = argument_views(arguments@);
        let mut model: Option<String> = None;
        let mut hint: Option<String> = None;
        let mut i: usize = 0;
        while i < arguments.len()
            invariant
                i <= arguments.len(),
                all == argument_views(arguments@),
                text_option(model) == last_value(all.take(i as int), "model"@),
                text_option(hint) == last_value(all.take(i as int), "prompt"@),
            decreases arguments.len() - i,
        {
            assert(all.take(i + 1).drop_last() =~= all.take(i as int));
            assert(all.take(i + 1).last() == arguments@[i as int]@);
            let argument = &arguments[i];
            match &argument.value {
                Some(value) => {
                    if same_text(argument.name.as_str(), "model") {
                        model = Some(copy_text(value.as_str()));
                    }
                    if same_text(argument.name.as_str(), "prompt") {
                        hint = Some(copy_text(value.as_str()));
                    }
                },
                None => {},
            }
            i = i + 1;
        }
        assert(all.take(i as int) =~= all);
        GenerationParams { model, hint }
    }

    /// The model to ask.
    pub fn model_name(&self) -> (r: String)
        ensures
            r@ == self@.model_name(),
    {
        match &self.model {
            Some(model) => copy_text(model.as_str()),
            None => copy_text("gpt-4o-mini"),
        }
    }
}

} // verus!
