use prisma_filter::error::{FilterError, FilterPath};
use prisma_filter::protobuf::prisma::{
    ErrorValue, Header, Node, NodesResult, ProtoError, RelationalField, Response, ResultMessage,
    ResultValue, RpcResponse, SelectedField, SelectedFieldKind, Value, ValueContainer,
};

fn header() -> Header {
    Header { message_type: "RpcResponse".to_string() }
}

#[test]
fn the_header_names_the_message() {
    assert_eq!(RpcResponse::header(), header());
}

#[test]
fn empty_response() {
    assert_eq!(
        RpcResponse::empty(),
        RpcResponse {
            header: header(),
            response: Some(Response::Result(ResultMessage { value: None }))
        }
    );
}

#[test]
fn response_with_records() {
    let result = NodesResult {
        nodes: vec![Node {
            values: vec![ValueContainer { prisma_value: Some(Value::Int(1)) }],
        }],
        fields: vec!["id".to_string()],
    };
    assert_eq!(
        RpcResponse::ok(result.clone()),
        RpcResponse {
            header: header(),
            response: Some(Response::Result(ResultMessage {
                value: Some(ResultValue::NodesResult(result))
            }))
        }
    );
}

#[test]
fn failed_responses() {
    let failed = |value: ErrorValue| RpcResponse {
        header: header(),
        response: Some(Response::Error(ProtoError { value: Some(value) })),
    };
    assert_eq!(
        RpcResponse::error(FilterError::UnknownField { name: "body".to_string() }),
        failed(ErrorValue::UnknownField("body".to_string()))
    );
    assert_eq!(
        RpcResponse::error(FilterError::UnsupportedFilter { path: FilterPath::Here }),
        failed(ErrorValue::UnsupportedFilter(true))
    );
    assert_eq!(
        RpcResponse::error(FilterError::MalformedCondition),
        failed(ErrorValue::MalformedCondition(true))
    );
    assert_eq!(FilterError::MalformedCondition.into_proto(), ErrorValue::MalformedCondition(true));
}

#[test]
fn selected_fields_know_their_kind() {
    let scalar = SelectedField { field: Some(SelectedFieldKind::Scalar("title".to_string())) };
    let relational = SelectedField {
        field: Some(SelectedFieldKind::Relational(RelationalField {
            field: "comments".to_string(),
        })),
    };
    let nothing = SelectedField { field: None };
    assert!(scalar.is_scalar());
    assert!(!scalar.is_relational());
    assert!(!relational.is_scalar());
    assert!(relational.is_relational());
    assert!(!nothing.is_scalar());
    assert!(!nothing.is_relational());
}
