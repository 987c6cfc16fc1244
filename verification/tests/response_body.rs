use ani_dock::request::common::{CommonResponseBody, DirectDataResponseBody};

#[derive(Debug, Clone, PartialEq, Eq)]
struct TestData {
    data_string: String,
}

#[test]
fn common_response_body_converts_into_result() {
    let data = TestData {
        data_string: "data_string".to_string(),
    };

    assert_eq!(
        CommonResponseBody::<TestData, String>::Data(data.clone()).into_result(),
        Ok(data)
    );
    assert_eq!(
        CommonResponseBody::<TestData, String>::Error("error_string".to_string()).into_result(),
        Err("error_string".to_string())
    );
}

#[test]
fn direct_data_response_body_converts_into_result() {
    let data = TestData {
        data_string: "data_string".to_string(),
    };

    assert_eq!(
        DirectDataResponseBody::<TestData, String>::Data(data.clone()).into_result(),
        Ok(data)
    );
    assert_eq!(
        DirectDataResponseBody::<TestData, String>::Error {
            error: "error_string".to_string(),
        }
        .into_result(),
        Err("error_string".to_string())
    );
}
