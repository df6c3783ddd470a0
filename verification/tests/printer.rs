use devbridge::printer::{
    get_print_queue, list_printers, print_pdf, print_to_script, printer_info, queue_documents,
    queue_verdict, readiness, check_printer_ready, verify_print_completion, QueuedJob,
};

#[test]
fn test_list_printers_returns_ok() {
    let result = list_printers();
    assert!(result.is_ok());
}

#[test]
fn test_print_pdf_errors_on_non_windows() {
    let result = print_pdf("test", "/tmp/test.pdf");
    assert!(result.is_err());
    assert!(result.unwrap_err().contains("only supported on Windows"));
}

#[test]
fn test_get_print_queue_returns_ok() {
    let result = get_print_queue("nonexistent");
    assert!(result.is_ok());
}

#[test]
fn stubs_report_nothing_to_wait_for() {
    assert_eq!(list_printers().unwrap().len(), 0);
    assert_eq!(check_printer_ready("any"), Ok(()));
    let v = verify_print_completion("any", 60).unwrap();
    assert!(v.success);
    assert_eq!(v.spooler_status, "completed");
    assert_eq!(v.detail, "non-Windows stub");
}

#[test]
fn get_printer_fields_and_status_names() {
    let p = printer_info(Some("Canon"), Some("Canon Driver"), Some(8), Some(2));
    assert_eq!(p.name, "Canon");
    assert_eq!(p.driver, "Canon Driver");
    assert_eq!(p.status, "offline");
    assert_eq!(p.jobs, 2);
    assert!(!p.is_target);
    let q = printer_info(None, None, None, None);
    assert_eq!(q.name, "Unknown");
    assert_eq!(q.driver, "-");
    assert_eq!(q.status, "unknown");
    assert_eq!(q.jobs, 0);
    assert_eq!(printer_info(None, None, Some(3), None).status, "pending deletion");
    assert_eq!(printer_info(None, None, Some(9), None).status, "unknown");
}

#[test]
fn readiness_refuses_printers_that_cannot_print() {
    assert_eq!(readiness("P", 0), Ok(()));
    assert_eq!(readiness("P", 3), Ok(()));
    assert_eq!(readiness("P", 1), Err("printer 'P' is paused".to_string()));
    assert_eq!(readiness("P", 5), Err("printer 'P' is out of paper".to_string()));
    assert_eq!(readiness("P", 8), Err("printer 'P' is offline".to_string()));
}

#[test]
fn queue_polls_decide_completion() {
    let none: Vec<QueuedJob> = vec![];
    let v = queue_verdict(true, &none, false, 60).unwrap();
    assert!(v.success);
    assert_eq!(v.detail, "job left print queue");
    let jobs = vec![
        QueuedJob { status: "Printing".into(), document: "a.pdf".into() },
        QueuedJob { status: "Error, Offline".into(), document: "b.pdf".into() },
    ];
    let v = queue_verdict(false, &jobs, false, 60).unwrap();
    assert!(!v.success);
    assert_eq!(v.spooler_status, "error");
    assert_eq!(v.detail, "spooler status: Error, Offline (document: b.pdf)");
    let waiting = vec![QueuedJob { status: "Printing".into(), document: "a.pdf".into() }];
    assert!(queue_verdict(false, &waiting, false, 60).is_none());
    let v = queue_verdict(false, &waiting, true, 60).unwrap();
    assert_eq!(v.spooler_status, "timeout");
    assert_eq!(v.detail, "1 job(s) still in queue after 60s");
}

#[test]
fn queue_document_lines() {
    assert_eq!(
        queue_documents("  a.pdf \r\n\r\nb.pdf\n   \n"),
        vec!["a.pdf".to_string(), "b.pdf".to_string()]
    );
    assert!(queue_documents("").is_empty());
    assert_eq!(
        print_to_script("C:\\x'y.pdf", "O'Brien"),
        "Start-Process -FilePath 'C:\\x''y.pdf' -Verb PrintTo -ArgumentList '\"O''Brien\"' -Wait -WindowStyle Hidden"
    );
}
