use socket_protocol::acceptor::{filter_attempts, handle_socket_error, Attempt};
use socket_protocol::check::{
    ChangeSeverity, CheckConfig, GitContext, GitContextInput, GraphRef, MutationChangeSeverity,
    MutationVariables, SubgraphCheckInput, ValidationPeriod,
};
use socket_protocol::client::{handle_response, Client, GraphQlResponse, RequestFailure};

#[test]
fn acceptor_yields_live_connections_in_order_and_logs_failures() {
    let attempts: Vec<Attempt<u32>> = vec![
        Attempt::Live(1),
        Attempt::Failed(String::from("peer hung up")),
        Attempt::Live(3),
        Attempt::Failed(String::from("handshake aborted")),
        Attempt::Live(5),
    ];
    let (conns, log) = filter_attempts(attempts);
    assert_eq!(conns, vec![1, 3, 5]);
    assert_eq!(
        log,
        vec![
            String::from("incoming connection failed: peer hung up"),
            String::from("incoming connection failed: handshake aborted"),
        ]
    );
}

#[test]
fn one_live_attempt_passes_through_without_logging() {
    let mut log: Vec<String> = Vec::new();
    let got = handle_socket_error(Attempt::Live(String::from("conn")), &mut log);
    assert_eq!(got, Some(String::from("conn")));
    assert!(log.is_empty());
}

#[test]
fn one_failed_attempt_is_absorbed_into_a_log_line() {
    let mut log: Vec<String> = Vec::new();
    let got: Option<u32> = handle_socket_error(Attempt::Failed(String::from("broken")), &mut log);
    assert_eq!(got, None);
    assert_eq!(log, vec![String::from("incoming connection failed: broken")]);
}

#[test]
fn graphql_errors_aggregate_newline_joined() {
    let response: GraphQlResponse<u32> = GraphQlResponse {
        data: Some(7),
        errors: Some(vec![String::from("a"), String::from("b")]),
    };
    match handle_response(response) {
        Err(RequestFailure::GraphQLError { msg }) => assert_eq!(msg, "a\nb"),
        _ => panic!("expected an aggregated GraphQL error"),
    }
}

#[test]
fn response_without_errors_returns_its_data() {
    let response: GraphQlResponse<u32> = GraphQlResponse { data: Some(7), errors: None };
    assert_eq!(handle_response(response), Ok(Some(7)));
}

#[test]
fn client_uses_the_default_endpoint_when_none_is_given() {
    let c = Client::new(String::from("example-api-key"), None);
    assert_eq!(c.uri, "https://graphql.api.apollographql.com/api/graphql");
    assert_eq!(c.api_key, "example-api-key");
}

#[test]
fn client_keeps_a_supplied_endpoint() {
    let c = Client::new(
        String::from("example-api-key"),
        Some(String::from("https://example.test/graphql")),
    );
    assert_eq!(c.uri, "https://example.test/graphql");
}

#[test]
fn severity_notice_maps_to_pass_and_failure_to_fail() {
    assert_eq!(
        ChangeSeverity::from_wire(MutationChangeSeverity::NOTICE),
        Ok(ChangeSeverity::PASS)
    );
    assert_eq!(
        ChangeSeverity::from_wire(MutationChangeSeverity::FAILURE),
        Ok(ChangeSeverity::FAIL)
    );
}

#[test]
fn unknown_severity_is_a_defect_not_a_coercion() {
    let r = ChangeSeverity::from_wire(MutationChangeSeverity::Other(String::from("MYSTERY")));
    assert_eq!(r, Err(String::from("MYSTERY")));
}

fn sample_input(period: Option<ValidationPeriod>) -> SubgraphCheckInput {
    SubgraphCheckInput {
        graph_ref: GraphRef {
            name: String::from("my-graph"),
            variant: String::from("current"),
        },
        subgraph: String::from("accounts"),
        proposed_schema: String::from("type Query { me: String }"),
        git_context: GitContext {
            branch: Some(String::from("main")),
            commit: Some(String::from("abc123")),
            author: Some(String::from("dev")),
            remote_url: None,
        },
        config: CheckConfig {
            query_count_threshold: Some(10),
            query_count_threshold_percentage: None,
            validation_period: period,
        },
    }
}

#[test]
fn check_input_flattens_to_mutation_variables() {
    let vars = MutationVariables::from(sample_input(Some(ValidationPeriod {
        from: String::from("-3600"),
        to: String::from("-0"),
    })));
    assert_eq!(vars.graph_id, "my-graph");
    assert_eq!(vars.variant, "current");
    assert_eq!(vars.subgraph, "accounts");
    assert_eq!(
        vars.proposed_schema.sdl,
        Some(String::from("type Query { me: String }"))
    );
    assert_eq!(vars.proposed_schema.hash, None);
    assert_eq!(vars.config.query_count_threshold, Some(10));
    assert_eq!(vars.config.query_count_threshold_percentage, None);
    assert_eq!(vars.config.from, Some(String::from("-3600")));
    assert_eq!(vars.config.to, Some(String::from("-0")));
    assert_eq!(vars.config.excluded_clients, None);
    assert_eq!(vars.config.ignored_operations, None);
    assert_eq!(vars.config.included_variants, None);
    assert_eq!(vars.git_context.branch, Some(String::from("main")));
    assert_eq!(vars.git_context.commit, Some(String::from("abc123")));
    assert_eq!(vars.git_context.committer, Some(String::from("dev")));
    assert_eq!(vars.git_context.remote_url, None);
    assert_eq!(vars.git_context.message, None);
}

#[test]
fn unset_validation_period_defaults_to_the_standard_range() {
    let vars = MutationVariables::from(sample_input(None));
    assert_eq!(vars.config.from, Some(String::from("-86400")));
    assert_eq!(vars.config.to, Some(String::from("-0")));
}

#[test]
fn git_context_maps_author_to_committer_and_sends_no_message() {
    let input = GitContext {
        branch: None,
        commit: Some(String::from("fff")),
        author: Some(String::from("someone")),
        remote_url: Some(String::from("git@example.test:repo.git")),
    };
    let mapped = GitContextInput::from(input);
    assert_eq!(mapped.branch, None);
    assert_eq!(mapped.commit, Some(String::from("fff")));
    assert_eq!(mapped.committer, Some(String::from("someone")));
    assert_eq!(mapped.remote_url, Some(String::from("git@example.test:repo.git")));
    assert_eq!(mapped.message, None);
}
