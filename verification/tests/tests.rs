use getpocket::client::ClientError;
use getpocket::client::SendParams;
use getpocket::modifying::Action;
use getpocket::wire::WireValue;
use getpocket::wire::WireValue::Number;
use getpocket::wire::WireValue::Text;
use getpocket::GetPocket;
use getpocket::RecordItemContentType;
use getpocket::RecordItemDetailType;
use getpocket::RecordItemFavorite;
use getpocket::RecordItemSort;
use getpocket::RecordItemState;
use getpocket::RecordItemTag;

fn init_get_pocket() -> GetPocket {
    GetPocket::new(
        String::from("consumer-key"),
        String::from("https://example.com/return"),
        String::from("access-token"),
    )
    .unwrap()
}

fn payload<'a>(middle: &[(&'static str, WireValue<'a>)]) -> Vec<(&'static str, WireValue<'a>)> {
    let mut fields = vec![
        ("consumer_key", Text("consumer-key")),
        ("access_token", Text("access-token")),
    ];
    fields.extend_from_slice(middle);
    fields.push(("offset", Number(0)));
    fields.push(("count", Number(1)));
    fields
}

#[test]
fn tests_test_retrieve_all_archive_items() {
    let get_pocket: GetPocket = init_get_pocket();
    let r = get_pocket.list_of_items_with_params(
        RecordItemState::Archive,
        RecordItemFavorite::default(),
        RecordItemTag::default(),
        RecordItemContentType::default(),
        RecordItemSort::default(),
        RecordItemDetailType::default(),
        None,
        None,
        None,
        0,
        1,
    );
    assert!(r.is_ok());
    assert_eq!(r.unwrap().fields(), payload(&[("state", Text("archive"))]));
}

#[test]
fn tests_test_retrieve_all_unread_items() {
    let get_pocket: GetPocket = init_get_pocket();
    let r = get_pocket.list_of_items_with_params(
        RecordItemState::Unread,
        RecordItemFavorite::default(),
        RecordItemTag::default(),
        RecordItemContentType::default(),
        RecordItemSort::default(),
        RecordItemDetailType::default(),
        None,
        None,
        None,
        0,
        1,
    );
    assert!(r.is_ok());
    assert_eq!(r.unwrap().fields(), payload(&[]));
}

#[test]
fn tests_test_retrieve_all_state_items() {
    let get_pocket: GetPocket = init_get_pocket();
    let r = get_pocket.list_of_items_with_params(
        RecordItemState::All,
        RecordItemFavorite::default(),
        RecordItemTag::default(),
        RecordItemContentType::default(),
        RecordItemSort::default(),
        RecordItemDetailType::default(),
        None,
        None,
        None,
        0,
        1,
    );
    assert!(r.is_ok());
    assert_eq!(r.unwrap().fields(), payload(&[("state", Text("all"))]));
}

#[test]
fn tests_test_retrieve_favorited_items() {
    let get_pocket: GetPocket = init_get_pocket();
    let r = get_pocket.list_of_items_with_params(
        RecordItemState::default(),
        RecordItemFavorite::Favorited,
        RecordItemTag::default(),
        RecordItemContentType::default(),
        RecordItemSort::default(),
        RecordItemDetailType::default(),
        None,
        None,
        None,
        0,
        1,
    );
    assert!(r.is_ok());
    assert_eq!(r.unwrap().fields(), payload(&[("favorite", Number(1))]));
}

#[test]
fn tests_test_retrieve_unfavorited_items() {
    let get_pocket: GetPocket = init_get_pocket();
    let r = get_pocket.list_of_items_with_params(
        RecordItemState::default(),
        RecordItemFavorite::Unfavorited,
        RecordItemTag::default(),
        RecordItemContentType::default(),
        RecordItemSort::default(),
        RecordItemDetailType::default(),
        None,
        None,
        None,
        0,
        1,
    );
    assert!(r.is_ok());
    assert_eq!(r.unwrap().fields(), payload(&[("favorite", Number(0))]));
}

#[test]
fn tests_test_retrieve_untagged_items() {
    let get_pocket: GetPocket = init_get_pocket();
    let r = get_pocket.list_of_items_with_params(
        RecordItemState::default(),
        RecordItemFavorite::default(),
        RecordItemTag::Untagged,
        RecordItemContentType::default(),
        RecordItemSort::default(),
        RecordItemDetailType::default(),
        None,
        None,
        None,
        0,
        1,
    );
    assert!(r.is_ok());
    assert_eq!(r.unwrap().fields(), payload(&[("tag", Text("_untagged_"))]));
}

#[test]
fn tests_test_retrieve_tagged_items() {
    let get_pocket: GetPocket = init_get_pocket();
    let added = get_pocket.add_item_with_params(
        "https://www.rust-lang.org/",
        Some("Rust Programming Language"),
        Some(&["rust", "programming", "language"]),
        None,
    );
    assert!(added.is_ok());
    assert_eq!(added.unwrap().tags, Some(&["rust", "programming", "language"][..]));

    let r = get_pocket.list_of_items_with_params(
        RecordItemState::default(),
        RecordItemFavorite::default(),
        RecordItemTag::TagName("rust"),
        RecordItemContentType::default(),
        RecordItemSort::default(),
        RecordItemDetailType::default(),
        None,
        None,
        None,
        0,
        1,
    );
    assert!(r.is_ok());
    assert_eq!(r.unwrap().fields(), payload(&[("tag", Text("rust"))]));
}

#[test]
fn tests_test_retrieve_all_content_type_items() {
    let get_pocket: GetPocket = init_get_pocket();
    let r = get_pocket.list_of_items_with_params(
        RecordItemState::default(),
        RecordItemFavorite::default(),
        RecordItemTag::default(),
        RecordItemContentType::All,
        RecordItemSort::default(),
        RecordItemDetailType::default(),
        None,
        None,
        None,
        0,
        1,
    );
    assert!(r.is_ok());
    assert_eq!(r.unwrap().fields(), payload(&[]));
}

#[test]
fn tests_test_retrieve_video_content_type_items() {
    let get_pocket: GetPocket = init_get_pocket();
    let r = get_pocket.list_of_items_with_params(
        RecordItemState::default(),
        RecordItemFavorite::default(),
        RecordItemTag::default(),
        RecordItemContentType::Video,
        RecordItemSort::default(),
        RecordItemDetailType::default(),
        None,
        None,
        None,
        0,
        1,
    );
    assert!(r.is_ok());
    assert_eq!(r.unwrap().fields(), payload(&[("contentType", Text("video"))]));
}

#[test]
fn tests_test_retrieve_article_content_type_items() {
    let get_pocket: GetPocket = init_get_pocket();
    let r = get_pocket.list_of_items_with_params(
        RecordItemState::default(),
        RecordItemFavorite::default(),
        RecordItemTag::default(),
        RecordItemContentType::Article,
        RecordItemSort::default(),
        RecordItemDetailType::default(),
        None,
        None,
        None,
        0,
        1,
    );
    assert!(r.is_ok());
    assert_eq!(r.unwrap().fields(), payload(&[("contentType", Text("article"))]));
}

#[test]
fn tests_test_retrieve_image_content_type_items() {
    let get_pocket: GetPocket = init_get_pocket();
    let added = get_pocket.add_item_with_params(
        "https://www.mozilla.org/media/img/pocket/pocket-logo-light-mode.9a20614bbcba.svg",
        None,
        None,
        None,
    );
    assert!(added.is_ok());

    let r = get_pocket.list_of_items_with_params(
        RecordItemState::default(),
        RecordItemFavorite::default(),
        RecordItemTag::default(),
        RecordItemContentType::Image,
        RecordItemSort::default(),
        RecordItemDetailType::default(),
        None,
        None,
        None,
        0,
        1,
    );
    assert!(r.is_ok());
    assert_eq!(r.unwrap().fields(), payload(&[("contentType", Text("image"))]));
}

#[test]
fn tests_test_retrieve_simple_items() {
    let get_pocket: GetPocket = init_get_pocket();
    let r = get_pocket.list_of_items_with_params(
        RecordItemState::default(),
        RecordItemFavorite::default(),
        RecordItemTag::default(),
        RecordItemContentType::default(),
        RecordItemSort::default(),
        RecordItemDetailType::Simple,
        None,
        None,
        None,
        0,
        1,
    );
    assert!(r.is_ok());
    assert_eq!(r.unwrap().fields(), payload(&[("detailType", Text("simple"))]));
}

#[test]
fn tests_test_retrieve_complete_items() {
    let get_pocket: GetPocket = init_get_pocket();
    let r = get_pocket.list_of_items_with_params(
        RecordItemState::default(),
        RecordItemFavorite::default(),
        RecordItemTag::default(),
        RecordItemContentType::default(),
        RecordItemSort::default(),
        RecordItemDetailType::Complete,
        None,
        None,
        None,
        0,
        1,
    );
    assert!(r.is_ok());
    assert_eq!(r.unwrap().fields(), payload(&[("detailType", Text("complete"))]));
}

#[test]
fn tests_test_retrieve_all_items() {
    let get_pocket: GetPocket = init_get_pocket();
    let r = get_pocket.list_of_items_with_params(
        RecordItemState::default(),
        RecordItemFavorite::default(),
        RecordItemTag::default(),
        RecordItemContentType::default(),
        RecordItemSort::default(),
        RecordItemDetailType::default(),
        None,
        None,
        None,
        0,
        1,
    );
    assert!(r.is_ok());
    assert_eq!(r.unwrap().fields(), payload(&[]));
}

#[derive(Debug)]
struct MyStruct {
    action: String,
    item_id: String,
    time: String,
}

#[test]
fn test_send_params_direct() {
    let get_pocket: GetPocket = init_get_pocket();

    let my_struct = MyStruct {
        action: String::from("favorite"),
        item_id: String::from("229279689"),
        time: String::from("1348853312"),
    };
    let actions = [my_struct];

    let r = get_pocket.send(&actions);

    assert!(r.is_ok());
    let params: SendParams<&[MyStruct; 1]> = r.unwrap();
    assert_eq!(params.consumer_key, "consumer-key");
    assert_eq!(params.access_token, "access-token");
    assert_eq!(params.actions[0].action, "favorite");
    assert_eq!(params.actions[0].item_id, "229279689");
    assert_eq!(params.actions[0].time, "1348853312");
}

fn add_new_item(get_pocket: &GetPocket, url: &str) -> i64 {
    let added = get_pocket.add_item(url).unwrap();
    assert_eq!(
        added.fields(),
        vec![
            ("consumer_key", Text("consumer-key")),
            ("access_token", Text("access-token")),
            ("url", Text(url)),
        ]
    );
    229279689
}

#[test]
fn test_archive_item() {
    let get_pocket: GetPocket = init_get_pocket();
    let item_id = add_new_item(&get_pocket, "https://getpocket.com/developer/docs/v3/add");
    let resp_archive = get_pocket.archive(item_id);

    assert!(resp_archive.is_ok());
    let params = resp_archive.unwrap();
    assert_eq!(params.access_token, "access-token");
    assert_eq!(params.actions.len(), 1);
    assert_eq!(params.actions[0].action, Action::Archive);
    assert_eq!(params.actions[0].item_id, item_id);
    assert_eq!(params.actions[0].time, None);

    let _ = get_pocket.delete(item_id);
}

#[test]
fn test_readd_item() {
    let get_pocket: GetPocket = init_get_pocket();
    let item_id = add_new_item(&get_pocket, "https://getpocket.com/developer/docs/v3/add");
    let _ = get_pocket.archive(item_id);

    let resp_readd = get_pocket.readd(item_id);
    assert!(resp_readd.is_ok());
    let params = resp_readd.unwrap();
    assert_eq!(params.actions[0].action, Action::Readd);
    assert_eq!(params.actions[0].item_id, item_id);
    assert_eq!(params.actions[0].time, None);

    let _ = get_pocket.delete(item_id);
}

#[test]
fn test_favorite_item() {
    let get_pocket: GetPocket = init_get_pocket();
    let item_id = add_new_item(&get_pocket, "https://getpocket.com/developer/docs/v3/add");

    let resp_favorite = get_pocket.favorite(item_id);
    assert!(resp_favorite.is_ok());
    let params = resp_favorite.unwrap();
    assert_eq!(params.actions[0].action, Action::Favorite);
    assert_eq!(params.actions[0].item_id, item_id);
    assert_eq!(params.actions[0].time, None);

    let _ = get_pocket.delete(item_id);
}

#[test]
fn test_unfavorite_item() {
    let get_pocket: GetPocket = init_get_pocket();
    let item_id = add_new_item(&get_pocket, "https://getpocket.com/developer/docs/v3/add");

    let _ = get_pocket.favorite(item_id);

    let resp_unfavorite = get_pocket.unfavorite(item_id);
    assert!(resp_unfavorite.is_ok());
    let params = resp_unfavorite.unwrap();
    assert_eq!(params.actions[0].action, Action::Unfavorite);
    assert_eq!(params.actions[0].item_id, item_id);
    assert_eq!(params.actions[0].time, None);

    let _ = get_pocket.delete(item_id);
}

#[test]
fn test_delete_item() {
    let get_pocket: GetPocket = init_get_pocket();
    let item_id = add_new_item(&get_pocket, "https://getpocket.com/developer/docs/v3/add");
    let resp_delete = get_pocket.delete(item_id);
    assert!(resp_delete.is_ok());
    let params = resp_delete.unwrap();
    assert_eq!(params.actions[0].action, Action::Delete);
    assert_eq!(params.actions[0].item_id, item_id);
    assert_eq!(params.actions[0].time, None);
}

#[test]
fn send_without_access_token_is_a_token_error() {
    let get_pocket = GetPocket::init(String::from("consumer-key"), String::from("uri"));
    assert!(matches!(get_pocket.send(vec![1u8]), Err(ClientError::TokenError)));
    assert!(matches!(get_pocket.archive(1), Err(ClientError::TokenError)));
    assert!(matches!(get_pocket.readd(1), Err(ClientError::TokenError)));
    assert!(matches!(get_pocket.favorite(1), Err(ClientError::TokenError)));
    assert!(matches!(get_pocket.unfavorite(1), Err(ClientError::TokenError)));
    assert!(matches!(get_pocket.delete(1), Err(ClientError::TokenError)));
}

#[test]
fn send_url_is_endpoint_question_mark_query() {
    assert_eq!(getpocket::client::ENDPOINT, "https://getpocket.com/v3/send");
    assert_eq!(
        GetPocket::send_url("consumer_key=k&access_token=t"),
        "https://getpocket.com/v3/send?consumer_key=k&access_token=t"
    );
    assert_eq!(GetPocket::send_url(""), "https://getpocket.com/v3/send?");
}

#[test]
fn action_tags_on_the_wire() {
    assert_eq!(Action::Archive.wire_value(), "archive");
    assert_eq!(Action::Readd.wire_value(), "readd");
    assert_eq!(Action::Favorite.wire_value(), "favorite");
    assert_eq!(Action::Unfavorite.wire_value(), "unfavorite");
    assert_eq!(Action::Delete.wire_value(), "delete");
}

#[test]
fn action_payloads_name_the_tag_the_item_and_the_time() {
    let get_pocket: GetPocket = init_get_pocket();
    let archive = get_pocket.archive(229279689).unwrap();
    assert_eq!(
        archive.actions[0].fields(),
        vec![("action", Text("archive")), ("item_id", Number(229279689))]
    );
    let delete = get_pocket.delete(i64::MAX).unwrap();
    assert_eq!(
        delete.actions[0].fields(),
        vec![("action", Text("delete")), ("item_id", Number(i64::MAX))]
    );
    assert_eq!(
        getpocket::modifying::action_fields(Action::Favorite, -1, Some(1348853312)),
        vec![
            ("action", Text("favorite")),
            ("item_id", Number(-1)),
            ("time", Number(1348853312)),
        ]
    );
    assert_eq!(
        get_pocket.readd(7).unwrap().actions[0].fields(),
        vec![("action", Text("readd")), ("item_id", Number(7))]
    );
    assert_eq!(
        get_pocket.unfavorite(7).unwrap().actions[0].fields(),
        vec![("action", Text("unfavorite")), ("item_id", Number(7))]
    );
    assert_eq!(
        get_pocket.favorite(7).unwrap().actions[0].fields(),
        vec![("action", Text("favorite")), ("item_id", Number(7))]
    );
}
