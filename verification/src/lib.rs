pub mod text;
pub mod command_line_token;
pub mod command_line;
pub mod data_model_name;
pub mod entity_id;
pub mod example_name;
pub mod example_selector;
pub mod container_image;
pub mod license_identifier;
pub mod publisher_name;
pub mod shell_command;
pub mod entity_count;
pub mod volatility;
pub mod program_name;
pub mod container_network;
pub mod source_format;
pub mod format_badge;
pub mod outside;
pub mod poll_interval;
pub mod poll_schedule;
pub mod requirements;
pub mod run;
pub mod preparation;
pub mod example;
pub mod context_broker;
pub mod dataset;
pub mod assertion_target;
pub mod output;
pub mod drift;
pub mod broker;
pub mod verification;
pub mod json;
pub mod runtime;
pub mod descriptor;
pub mod page;
pub mod listing;
pub mod example_index;
pub mod scheduled_run;
pub mod schema_cache;
pub mod broker_stack;
pub mod execution;
pub mod docs_metadata;
pub mod inspection;
