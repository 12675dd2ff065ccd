//! Settings shared by all outputs.

use vstd::prelude::*;

verus! {

/// What a list of named options holds: its names and values, in order.
pub open spec fn option_views(options: Seq<(String, String)>) -> Seq<(Seq<char>, Seq<char>)> {
    options.map_values(|option: (String, String)| (option.0@, option.1@))
}

/// Copies a list of named options.
pub fn clone_options(options: &Vec<(String, String)>) -> (copy: Vec<(String, String)>)
    ensures
        copy@ == options@,
{
    let mut copy: Vec<(String, String)> = Vec::new();
    for i in 0..options.len()
        invariant
            copy@.len() == i,
            forall|j: int| 0 <= j < i ==> #[trigger] copy@[j] == options@[j],
    {
        copy.push((options[i].0.clone(), options[i].1.clone()));
    }
    assert(copy@ =~= options@);
    copy
}

/// Settings of the files driver.
#[derive(Debug, PartialEq, Eq)]
pub struct FilesSettings {
    /// Seconds after which a file that is no longer written to is closed.
    pub files_descriptor_close_timeout: u64,
}

impl FilesSettings {
    pub fn files_descriptor_close_timeout(&self) -> (timeout: u64)
        ensures
            timeout == self.files_descriptor_close_timeout,
    {
        self.files_descriptor_close_timeout
    }
}

/// Settings of the Kafka client that outputs without options of their own share.
#[derive(Debug, PartialEq, Eq)]
pub struct KafkaSettings {
    /// Client options, such as `bootstrap.servers`, by name.
    pub options: Vec<(String, String)>,
}

impl View for KafkaSettings {
    type V = Seq<(Seq<char>, Seq<char>)>;

    open spec fn view(&self) -> Seq<(Seq<char>, Seq<char>)> {
        option_views(self.options@)
    }
}

/// Settings of all outputs.
#[derive(Debug, PartialEq, Eq)]
pub struct Outputs {
    pub files: FilesSettings,
    pub kafka: KafkaSettings,
}

/// What [`Outputs`] holds.
#[verifier::ext_equal]
pub struct OutputsView {
    pub files_descriptor_close_timeout: u64,
    pub kafka_options: Seq<(Seq<char>, Seq<char>)>,
}

impl View for Outputs {
    type V = OutputsView;

    open spec fn view(&self) -> OutputsView {
        OutputsView {
            files_descriptor_close_timeout: self.files.files_descriptor_close_timeout,
            kafka_options: self.kafka@,
        }
    }
}

impl Outputs {
    pub fn files(&self) -> (files: &FilesSettings)
        ensures
            *files == self.files,
    {
        &self.files
    }

    pub fn kafka(&self) -> (kafka: &KafkaSettings)
        ensures
            *kafka == self.kafka,
    {
        &self.kafka
    }
}

impl Clone for Outputs {
    fn clone(&self) -> (copy: Self)
        ensures
            copy@ == self@,
            copy.files == self.files,
            copy.kafka.options@ == self.kafka.options@,
    {
        Outputs {
            files: FilesSettings {
                files_descriptor_close_timeout: self.files.files_descriptor_close_timeout,
            },
            kafka: KafkaSettings { options: clone_options(&self.kafka.options) },
        }
    }
}

} // verus!
