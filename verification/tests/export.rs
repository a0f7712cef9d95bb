use viber_balance::commands::{export_csv, EXPORT_PAGE, EXPORT_PAGE_SIZE};
use viber_balance::model::{LogItem, LogStatItem, LogsPage};

fn item(created_at: i64, model: &str, prompt: i64, completion: i64, quota: i64) -> LogItem {
    LogItem {
        id: 1,
        created_at,
        log_type: 2,
        content: String::new(),
        token_name: "default".to_string(),
        model_name: model.to_string(),
        quota,
        prompt_tokens: prompt,
        completion_tokens: completion,
        use_time: 3,
        is_stream: false,
        group: "g".to_string(),
        request_id: "r".to_string(),
        other: String::new(),
    }
}

#[test]
fn csv_of_no_logs_is_the_header() {
    assert_eq!(export_csv(&vec![], &vec![]), "Time,Model,Tokens,Cost\n");
}

#[test]
fn csv_lists_each_log() {
    let page = LogsPage {
        page: EXPORT_PAGE,
        page_size: EXPORT_PAGE_SIZE,
        total: 2,
        items: vec![item(1700000000, "gpt-4o", 100, 50, 500000), item(1700000100, "sonnet", -1, 0, 1)],
    };
    let costs: Vec<String> = page.items.iter().map(|i| format!("{:.6}", i.quota as f64 / 500000.0)).collect();
    assert_eq!(
        export_csv(&page.items, &costs),
        "Time,Model,Tokens,Cost\n1700000000,gpt-4o,150,1.000000\n1700000100,sonnet,-1,0.000002\n"
    );
    assert_eq!((EXPORT_PAGE, EXPORT_PAGE_SIZE), (0, 1000));
}

#[test]
fn stat_item_holds_its_fields() {
    let s = LogStatItem { model_name: "m".to_string(), quota: 5, count: 2, prompt_tokens: 3, completion_tokens: 4 };
    assert_eq!((s.model_name.as_str(), s.quota, s.count, s.prompt_tokens, s.completion_tokens), ("m", 5, 2, 3, 4));
}
