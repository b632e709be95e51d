use snipix::base::ResponseStatus;
use snipix::error::ContractError;
use snipix::marketing_info::{
    handle_set_marketing_info, init_marketing_info, query_marketing_info, read_marketing_info,
    write_marketing_info, MarketingStore,
};
use snipix::msg::{EmbeddedLogo, HandleAnswer, Logo, MarketingInfo, QueryAnswer};

fn record(project: &str) -> MarketingInfo {
    MarketingInfo {
        project: Some(project.to_string()),
        description: None,
        marketing: None,
        logo: Some(Logo::Url("https://example.com/logo.svg".into())),
    }
}

#[test]
fn a_fresh_store_was_never_written() {
    let store = MarketingStore::new();
    assert_eq!(read_marketing_info(&store), Err(ContractError::NotFound));
    assert_eq!(
        query_marketing_info(&store),
        Ok(QueryAnswer::MarketingInfo { marketing_info: None })
    );
    assert_eq!(store.into_saved(), None);
}

#[test]
fn what_is_written_is_read_back() {
    let mut store = MarketingStore::new();
    assert_eq!(write_marketing_info(&mut store, Some(record("x"))), Ok(()));
    assert_eq!(read_marketing_info(&store), Ok(Some(record("x"))));
    assert_eq!(
        query_marketing_info(&store),
        Ok(QueryAnswer::MarketingInfo { marketing_info: Some(record("x")) })
    );
    assert_eq!(write_marketing_info(&mut store, None), Ok(()));
    assert_eq!(read_marketing_info(&store), Ok(None));
    assert_eq!(
        query_marketing_info(&store),
        Ok(QueryAnswer::MarketingInfo { marketing_info: None })
    );
    assert_eq!(store.into_saved(), Some(None));
}

#[test]
fn init_writes_the_first_record() {
    let mut store = MarketingStore::new();
    assert_eq!(init_marketing_info(&mut store, record("first")), Ok(()));
    assert_eq!(read_marketing_info(&store), Ok(Some(record("first"))));
}

#[test]
fn set_answers_with_success() {
    let mut store = MarketingStore::new();
    assert_eq!(
        handle_set_marketing_info(&mut store, Some(record("a"))),
        Ok(HandleAnswer::SetMarketingInfo { status: ResponseStatus::Success })
    );
    assert_eq!(
        handle_set_marketing_info(&mut store, None),
        Ok(HandleAnswer::SetMarketingInfo { status: ResponseStatus::Success })
    );
    assert_eq!(read_marketing_info(&store), Ok(None));
}

#[test]
fn a_refused_write_leaves_the_store_as_it_was() {
    let mut store = MarketingStore::new();
    let bad = MarketingInfo {
        project: None,
        description: None,
        marketing: None,
        logo: Some(Logo::Embedded(EmbeddedLogo::Svg(vec![b'x'; 5121]))),
    };
    assert_eq!(
        write_marketing_info(&mut store, Some(bad.clone())),
        Err(ContractError::InvalidInput)
    );
    assert_eq!(read_marketing_info(&store), Err(ContractError::NotFound));

    write_marketing_info(&mut store, Some(record("kept"))).unwrap();
    assert_eq!(
        handle_set_marketing_info(&mut store, Some(bad.clone())),
        Err(ContractError::InvalidInput)
    );
    assert_eq!(init_marketing_info(&mut store, bad), Err(ContractError::InvalidInput));
    assert_eq!(read_marketing_info(&store), Ok(Some(record("kept"))));
}

#[test]
fn a_saved_store_is_restored() {
    let store = MarketingStore::restore(Some(Some(record("saved")))).unwrap();
    assert_eq!(read_marketing_info(&store), Ok(Some(record("saved"))));
    assert_eq!(store.into_saved(), Some(Some(record("saved"))));

    let store = MarketingStore::restore(None).unwrap();
    assert_eq!(read_marketing_info(&store), Err(ContractError::NotFound));

    let store = MarketingStore::restore(Some(None)).unwrap();
    assert_eq!(read_marketing_info(&store), Ok(None));

    let bad = MarketingInfo {
        project: None,
        description: None,
        marketing: None,
        logo: Some(Logo::Embedded(EmbeddedLogo::Png(vec![0; 5121]))),
    };
    assert!(matches!(
        MarketingStore::restore(Some(Some(bad))),
        Err(ContractError::InvalidInput)
    ));

    let any_bytes = MarketingInfo {
        project: None,
        description: None,
        marketing: None,
        logo: Some(Logo::Embedded(EmbeddedLogo::Png("GIF89a".as_bytes().to_vec()))),
    };
    let store = MarketingStore::restore(Some(Some(any_bytes.clone()))).unwrap();
    assert_eq!(read_marketing_info(&store), Ok(Some(any_bytes)));
}

#[test]
fn any_bytes_within_the_cap_are_written_and_read_back() {
    let mut store = MarketingStore::new();
    let plain = MarketingInfo {
        project: None,
        description: None,
        marketing: None,
        logo: Some(Logo::Embedded(EmbeddedLogo::Svg("not an image".as_bytes().to_vec()))),
    };
    assert_eq!(write_marketing_info(&mut store, Some(plain.clone())), Ok(()));
    assert_eq!(read_marketing_info(&store), Ok(Some(plain)));

    let one_byte = MarketingInfo {
        project: None,
        description: None,
        marketing: None,
        logo: Some(Logo::Embedded(EmbeddedLogo::Png(vec![0]))),
    };
    assert_eq!(
        handle_set_marketing_info(&mut store, Some(one_byte.clone())),
        Ok(HandleAnswer::SetMarketingInfo { status: ResponseStatus::Success })
    );
    assert_eq!(read_marketing_info(&store), Ok(Some(one_byte)));

    let empty = MarketingInfo {
        project: None,
        description: None,
        marketing: None,
        logo: Some(Logo::Embedded(EmbeddedLogo::Svg(vec![]))),
    };
    assert_eq!(init_marketing_info(&mut store, empty.clone()), Ok(()));
    assert_eq!(
        query_marketing_info(&store),
        Ok(QueryAnswer::MarketingInfo { marketing_info: Some(empty) })
    );
}
