use league_fan_assets::client::fetch_client::{receive, refuse, Reception, Request};
use league_fan_assets::client::r2_client::R2Client;
use league_fan_assets::error::LfaError;
use league_fan_assets::r2client::R2Client as JudgingClient;

const VALID_URL: &str = "https://raw.communitydragon.org/latest/plugins/rcp-be-lol-game-data/global/default/assets/loot/loottable_chest_generic_1.png";
const INVALID_URL: &str = "https://raw.communitydragon.org/latest/plugins/rcp-be-lol-game-data/global/zh_cn/assets/loot/loottable_chest_generic_1.png";

/// A proxy that keeps `test_exist.png` and cannot fetch `INVALID_URL`. It
/// answers a request by a status and a text.
fn proxy(request: &Request) -> (u16, String) {
    assert_eq!(
        request.headers.iter().find(|h| h.name == "Authorization").map(|h| h.value.as_str()),
        Some("Bearer token")
    );
    let body: serde_json::Value = serde_json::from_str(request.body.as_deref().unwrap()).unwrap();
    let key = body.get("imgId").or(body.get("name")).and_then(|v| v.as_str()).unwrap().to_string();
    let source = body.get("downloadUrl").or(body.get("url")).and_then(|v| v.as_str());
    if request.url == "https://worker.example/delete" {
        if key == "test_exist.png" || key == "test_success.png" {
            (200, format!("{} deleted", key))
        } else {
            (404, format!("{} does not exist", key))
        }
    } else if request.url == "https://worker.example/fetchSave" {
        if source == Some(INVALID_URL) {
            (404, "Failed to download the content".to_string())
        } else if key == "test_exist.png" {
            (409, format!("{} already exists", key))
        } else {
            (200, format!("{} saved", key))
        }
    } else {
        (400, "no such path".to_string())
    }
}

fn client() -> R2Client {
    R2Client::try_from_env(Some("https://worker.example".to_string()), Some("token".to_string()))
        .unwrap()
}

fn judging_client() -> JudgingClient {
    JudgingClient::try_from_env(
        Some("https://worker.example".to_string()),
        Some("token".to_string()),
    )
    .unwrap()
}

/// What the transport makes of the proxy's answer.
fn sent(request: Result<Request, LfaError>) -> Result<u16, LfaError> {
    let (status, text) = proxy(&request?);
    match receive(Ok(status)) {
        Reception::Accept(status) => Ok(status),
        Reception::Refuse(status) => Err(refuse(status, Ok(text))),
        Reception::Fail(error) => Err(error),
    }
}

#[test]
fn r2_client_test_upload_file_fail_to_download() {
    let client = client();
    let download_url = INVALID_URL;
    let name = "test_unreachable.png";
    let result = sent(client.upload_file(download_url, name));
    assert!(result.is_err());
    assert!(matches!(result, Err(LfaError::FileNotExists(_))));
}

#[test]
fn r2_client_test_upload_file_and_delete() {
    let client = client();
    let download_url = VALID_URL;
    let name = "test_success.png";
    let result = sent(client.upload_file(download_url, name));
    assert!(result.is_ok());
}

#[test]
fn r2_client_test_delete_file_not_exist() {
    let client = client();
    let name = "test_not_exist.png";
    let result = sent(client.delete_file(name));
    assert!(result.is_err());
    assert!(matches!(result, Err(LfaError::FileNotExists(_))));
}

#[test]
fn r2client_test_upload_file_fail_to_download() {
    let client = judging_client();
    let download_url = INVALID_URL;
    let name = "test_unreachable.png";
    let (status, text) = proxy(&client.upload_file(download_url, name).unwrap());
    let result = JudgingClient::upload_outcome(status, text);
    assert!(result.is_err());
    assert!(result.unwrap_err().to_string().contains("Failed to download the content"));
}

#[test]
fn test_upload_file_already_exist() {
    let client = judging_client();
    let download_url = VALID_URL;
    let name = "test_exist.png";
    let (status, text) = proxy(&client.upload_file(download_url, name).unwrap());
    let result = JudgingClient::upload_outcome(status, text);
    assert!(result.is_err());
    assert!(result.unwrap_err().to_string().contains("already exists"));
}

#[test]
fn r2client_test_upload_file_and_delete() {
    let client = judging_client();
    let download_url = VALID_URL;
    let name = "test_success.png";
    let (status, text) = proxy(&client.upload_file(download_url, name).unwrap());
    let result = JudgingClient::upload_outcome(status, text);
    assert!(result.is_ok());

    let (status, text) = proxy(&client.delete_file(name).unwrap());
    let result = JudgingClient::delete_outcome(status, text);
    assert!(result.is_ok());
}

#[test]
fn r2client_test_delete_file_not_exist() {
    let client = judging_client();
    let name = "test_not_exist.png";
    let (status, text) = proxy(&client.delete_file(name).unwrap());
    let result = JudgingClient::delete_outcome(status, text);
    assert!(result.is_err());
    assert!(result.unwrap_err().to_string().contains("not exist"));
}
